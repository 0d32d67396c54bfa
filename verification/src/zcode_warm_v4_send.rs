//! Turn-input channel for the warm bridge.
//!
//! `session/send` is the legacy input surface; `v4/command` with its
//! `sendText` kind feeds the same turn runner and projects the same session
//! events. The v4 path is soft: any failure before the turn starts falls back
//! to `session/send`.

use crate::json;
use crate::json::Json;
use crate::json::JsonModel;
use crate::text;
use vstd::prelude::*;

verus! {

broadcast use vstd::string::group_string_axioms;

/// Which wire surface carries a turn's user input.
#[derive(Clone, Copy, Debug, PartialEq, Eq, Structural)]
pub enum TurnInputChannel {
    /// Legacy `session/send`, the default.
    LegacySend,
    /// `v4/command sendText`, falling back to the legacy surface on failure.
    V4Command,
}

/// The channel that a `ZCODE_WARM_V4_SEND` value selects; unknown values stay
/// on the legacy surface.
pub fn channel_from_value(value: Option<&str>) -> (channel: TurnInputChannel)
    ensures
        channel == (if text::switched_on(value.deep_view()) {
            TurnInputChannel::V4Command
        } else {
            TurnInputChannel::LegacySend
        }),
{
    if text::is_switched_on(value) {
        TurnInputChannel::V4Command
    } else {
        TurnInputChannel::LegacySend
    }
}

/// A request to send.
#[derive(Debug)]
pub struct SendRequest {
    pub method: &'static str,
    pub params: Json,
}

/// The params of a `session/send`.
pub open spec fn legacy_params_model(session_id: Seq<char>, content: Seq<char>) -> JsonModel {
    json::object_model().with("sessionId"@, JsonModel::Str(session_id)).with(
        "content"@,
        JsonModel::Str(content),
    )
}

/// The params of a `v4/command` that sends text.
pub open spec fn v4_params_model(
    session_id: Seq<char>,
    content: Seq<char>,
    command_id: Seq<char>,
    issued_at: u64,
) -> JsonModel {
    json::object_model().with("commandId"@, JsonModel::Str(command_id)).with(
        "clientId"@,
        JsonModel::Str("codex-zcode-warm"@),
    ).with("sessionId"@, JsonModel::Str(session_id)).with(
        "type"@,
        JsonModel::Str("sendText"@),
    ).with(
        "payload"@,
        json::object_model().with("text"@, JsonModel::Str(content)).with(
            "requestedDelivery"@,
            JsonModel::Str("startNow"@),
        ),
    ).with("issuedAt"@, JsonModel::Int(issued_at as int))
}

/// The request that carries a turn's input on the legacy surface.
pub fn legacy_send_request(session_id: &str, content: &str) -> (request: SendRequest)
    ensures
        request.method@ == "session/send"@,
        request.params@ == legacy_params_model(session_id@, content@),
{
    SendRequest {
        method: "session/send",
        params: Json::object().with("sessionId", Json::text(session_id)).with(
            "content",
            Json::text(content),
        ),
    }
}

/// The request that carries a turn's input as a command.
pub fn v4_send_request(session_id: &str, content: &str, command_id: &str, issued_at: u64) -> (request:
    SendRequest)
    ensures
        request.method@ == "v4/command"@,
        request.params@ == v4_params_model(session_id@, content@, command_id@, issued_at),
{
    SendRequest {
        method: "v4/command",
        params: Json::object().with("commandId", Json::text(command_id)).with(
            "clientId",
            Json::text("codex-zcode-warm"),
        ).with("sessionId", Json::text(session_id)).with("type", Json::text("sendText")).with(
            "payload",
            Json::object().with("text", Json::text(content)).with(
                "requestedDelivery",
                Json::text("startNow"),
            ),
        ).with("issuedAt", Json::PosInt(issued_at)),
    }
}

/// The request that a turn's input goes out with first.
pub fn first_send_request(
    channel: TurnInputChannel,
    session_id: &str,
    content: &str,
    command_id: &str,
    issued_at: u64,
) -> (request: SendRequest)
    ensures
        match channel {
            TurnInputChannel::LegacySend => {
                &&& request.method@ == "session/send"@
                &&& request.params@ == legacy_params_model(session_id@, content@)
            },
            TurnInputChannel::V4Command => {
                &&& request.method@ == "v4/command"@
                &&& request.params@ == v4_params_model(
                    session_id@,
                    content@,
                    command_id@,
                    issued_at,
                )
            },
        },
{
    match channel {
        TurnInputChannel::LegacySend => legacy_send_request(session_id, content),
        TurnInputChannel::V4Command => v4_send_request(session_id, content, command_id, issued_at),
    }
}

/// Why a turn's input was not taken, given the answer on the legacy surface.
pub open spec fn legacy_refusal(sent: Result<JsonModel, Seq<char>>) -> Option<Seq<char>> {
    match sent {
        Ok(sent) => if sent.get("accepted"@) == Some(JsonModel::Bool(true)) {
            None
        } else {
            Some("session/send was not accepted: "@ + json::json_text(sent))
        },
        Err(message) => Some(message),
    }
}

/// Why a turn's input was not taken, given the answer to the command.
pub open spec fn v4_refusal(ack: Result<JsonModel, Seq<char>>) -> Option<Seq<char>> {
    match ack {
        Ok(ack) => if ack.str_at("status"@) == Some("accepted"@) {
            None
        } else {
            Some("v4/command was not accepted: "@ + json::json_text(ack))
        },
        Err(message) => Some(message),
    }
}

/// What a verdict refuses with, if it does.
pub open spec fn refusal(verdict: Result<(), String>) -> Option<Seq<char>> {
    match verdict {
        Ok(_) => None,
        Err(message) => Some(message@),
    }
}

/// The acceptance verdict of the legacy surface.
pub fn legacy_verdict(sent: Result<Json, String>) -> (verdict: Result<(), String>)
    ensures
        refusal(verdict) == legacy_refusal(json::read_model(sent)),
{
    match sent {
        Ok(sent) => {
            let accepted = match sent.get("accepted") {
                Some(accepted) => match accepted.as_bool() {
                    Some(accepted) => accepted,
                    None => false,
                },
                None => false,
            };
            if accepted {
                Ok(())
            } else {
                Err("session/send was not accepted: ".to_owned().concat(sent.render().as_str()))
            }
        },
        Err(message) => Err(message),
    }
}

/// The acceptance verdict of the command.
pub fn v4_verdict(ack: Result<Json, String>) -> (verdict: Result<(), String>)
    ensures
        refusal(verdict) == v4_refusal(json::read_model(ack)),
{
    match ack {
        Ok(ack) => if text::opt_str_is(ack.str_at("status"), "accepted") {
            Ok(())
        } else {
            Err("v4/command was not accepted: ".to_owned().concat(ack.render().as_str()))
        },
        Err(message) => Err(message),
    }
}

/// The delivery of an accepted command that was queued rather than started:
/// its events may not arrive within this turn's idle window.
pub open spec fn queued_delivery_model(ack: JsonModel) -> Option<Seq<char>> {
    match json::str_in(ack.get("result"@), "delivery"@) {
        Some(delivery) => if delivery == "startNow"@ {
            None
        } else {
            Some(delivery)
        },
        None => None,
    }
}

/// The delivery of an accepted command that was queued rather than started,
/// for the log.
pub fn queued_delivery(ack: &Json) -> (delivery: Option<&str>)
    ensures
        delivery.deep_view() == queued_delivery_model(ack@),
{
    match json::text_at(ack.get("result"), "delivery") {
        Some(delivery) => if text::str_eq(delivery, "startNow") {
            None
        } else {
            Some(delivery)
        },
        None => None,
    }
}

/// What follows the first answer to a turn's input.
#[derive(Debug)]
pub enum SendStep {
    /// The input was taken, or is refused for good.
    Done(Result<(), String>),
    /// Send the input on the legacy surface instead; the message says why.
    FallBack { request: SendRequest, message: String },
}

/// Decides what follows the first answer to a turn's input: on the legacy
/// surface its verdict stands, and a command that failed falls back to the
/// legacy surface, whose verdict then stands.
pub fn after_first_send(
    channel: TurnInputChannel,
    session_id: &str,
    content: &str,
    answer: Result<Json, String>,
) -> (step: SendStep)
    ensures
        match channel {
            TurnInputChannel::LegacySend => step matches SendStep::Done(verdict) && refusal(verdict)
                == legacy_refusal(json::read_model(answer)),
            TurnInputChannel::V4Command => match v4_refusal(json::read_model(answer)) {
                None => step matches SendStep::Done(verdict) && verdict is Ok,
                Some(why) => step matches SendStep::FallBack { request, message } && {
                    &&& message@ == why
                    &&& request.method@ == "session/send"@
                    &&& request.params@ == legacy_params_model(session_id@, content@)
                },
            },
        },
{
    match channel {
        TurnInputChannel::LegacySend => SendStep::Done(legacy_verdict(answer)),
        TurnInputChannel::V4Command => match v4_verdict(answer) {
            Ok(()) => SendStep::Done(Ok(())),
            Err(message) => SendStep::FallBack {
                request: legacy_send_request(session_id, content),
                message,
            },
        },
    }
}

/// On either surface a turn's input goes out whole, to its session; a command
/// carries its id, its time and that it is to start at once.
pub proof fn law_input_goes_out_whole(
    session_id: Seq<char>,
    content: Seq<char>,
    command_id: Seq<char>,
    issued_at: u64,
    key: Seq<char>,
    inner: JsonModel,
)
    ensures
        json::has_member(legacy_params_model(session_id, content), key, inner) <==> {
            ||| key == "sessionId"@ && inner == JsonModel::Str(session_id)
            ||| key == "content"@ && inner == JsonModel::Str(content)
        },
        json::has_member(
            v4_params_model(session_id, content, command_id, issued_at),
            key,
            inner,
        ) <==> {
            ||| key == "commandId"@ && inner == JsonModel::Str(command_id)
            ||| key == "clientId"@ && inner == JsonModel::Str("codex-zcode-warm"@)
            ||| key == "sessionId"@ && inner == JsonModel::Str(session_id)
            ||| key == "type"@ && inner == JsonModel::Str("sendText"@)
            ||| key == "payload"@ && inner == json::object_model().with(
                "text"@,
                JsonModel::Str(content),
            ).with("requestedDelivery"@, JsonModel::Str("startNow"@))
            ||| key == "issuedAt"@ && inner == JsonModel::Int(issued_at as int)
        },
{
    reveal_strlit("sessionId");
    reveal_strlit("content");
    reveal_strlit("commandId");
    reveal_strlit("clientId");
    reveal_strlit("type");
    reveal_strlit("payload");
    reveal_strlit("issuedAt");
    assert("sessionId"@.len() == 9 && "content"@.len() == 7 && "commandId"@.len() == 9);
    assert("clientId"@.len() == 8 && "type"@.len() == 4 && "payload"@.len() == 7);
    assert("issuedAt"@.len() == 8);
    assert("commandId"@[0] != "sessionId"@[0]);
    assert("clientId"@[0] != "issuedAt"@[0]);
}

/// Input is taken exactly when the answer says that it was accepted, in the
/// surface's own way; else the answer, or why there is none, is told.
pub proof fn law_input_is_taken_only_when_accepted(answer: JsonModel, message: Seq<char>)
    ensures
        legacy_refusal(Ok(answer)) is None <==> json::has_member(
            answer,
            "accepted"@,
            JsonModel::Bool(true),
        ),
        v4_refusal(Ok(answer)) is None <==> json::has_member(
            answer,
            "status"@,
            JsonModel::Str("accepted"@),
        ),
        legacy_refusal(Ok(answer)) matches Some(why) ==> why == "session/send was not accepted: "@
            + json::json_text(answer),
        v4_refusal(Ok(answer)) matches Some(why) ==> why == "v4/command was not accepted: "@
            + json::json_text(answer),
        legacy_refusal(Err(message)) == Some(message),
        v4_refusal(Err(message)) == Some(message),
{
}

/// A verdict refuses with its own message, and input that was taken is not
/// refused.
pub proof fn law_a_verdict_refuses_in_its_own_words(verdict: Result<(), String>)
    ensures
        refusal(verdict) is None <==> verdict is Ok,
        verdict matches Err(message) ==> refusal(verdict) == Some(message@),
{
}

/// A command was queued exactly when the answer names a delivery other than an
/// immediate start, and then that is the one that is told.
pub proof fn law_a_queued_command_is_told(ack: JsonModel, delivery: Seq<char>)
    ensures
        queued_delivery_model(ack) == Some(delivery) <==> json::str_in(
            ack.get("result"@),
            "delivery"@,
        ) == Some(delivery) && delivery != "startNow"@,
{
}

/// Input goes out as a command exactly where commands are switched on, and else
/// on the legacy surface.
pub proof fn law_input_goes_out_on_its_channel(
    value: Option<&str>,
    channel: TurnInputChannel,
    session_id: &str,
    content: &str,
    command_id: &str,
    issued_at: u64,
    request: SendRequest,
)
    requires
        call_ensures(channel_from_value, (value,), channel),
        call_ensures(
            first_send_request,
            (channel, session_id, content, command_id, issued_at),
            request,
        ),
    ensures
        text::switched_on(value.deep_view()) ==> request.method@ == "v4/command"@
            && request.params@ == v4_params_model(session_id@, content@, command_id@, issued_at),
        !text::switched_on(value.deep_view()) ==> request.method@ == "session/send"@
            && request.params@ == legacy_params_model(session_id@, content@),
{
}

/// A refused command falls back to the legacy surface with the same input; on
/// the legacy surface the verdict stands.
pub proof fn law_a_refused_command_falls_back(
    channel: TurnInputChannel,
    session_id: &str,
    content: &str,
    answer: Result<Json, String>,
    step: SendStep,
)
    requires
        call_ensures(after_first_send, (channel, session_id, content, answer), step),
    ensures
        step is FallBack <==> channel == TurnInputChannel::V4Command && v4_refusal(
            json::read_model(answer),
        ) is Some,
        step matches SendStep::FallBack { request, message } ==> {
            &&& v4_refusal(json::read_model(answer)) == Some(message@)
            &&& request.method@ == "session/send"@
            &&& request.params@ == legacy_params_model(session_id@, content@)
        },
        channel == TurnInputChannel::V4Command && step is Done ==> step->Done_0 is Ok,
        channel == TurnInputChannel::LegacySend ==> step is Done && refusal(step->Done_0)
            == legacy_refusal(json::read_model(answer)),
{
}

/// A verdict takes the input exactly when its surface's answer accepts it, and
/// says else what refuses it; a queued delivery is the one that was answered.
pub proof fn law_a_verdict_goes_by_the_answer(
    answer: Result<Json, String>,
    legacy: Result<(), String>,
    command: Result<(), String>,
    ack: &Json,
    delivery: Option<&str>,
)
    requires
        call_ensures(legacy_verdict, (answer,), legacy),
        call_ensures(v4_verdict, (answer,), command),
        call_ensures(queued_delivery, (ack,), delivery),
    ensures
        refusal(legacy) == legacy_refusal(json::read_model(answer)),
        refusal(command) == v4_refusal(json::read_model(answer)),
        delivery.deep_view() == queued_delivery_model(ack@),
{
}

} // verus!
