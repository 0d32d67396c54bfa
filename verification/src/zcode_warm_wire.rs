//! The wire of the warm bridge: requests and their answers, the core's own
//! callbacks, and the routing of each frame.
//!
//! Envelope: `{"id", "method", "params"}` requests, bare
//! `{"method", "params"}` notifications, `{"id", "result"}` or
//! `{"id", "error"}` responses. The core issues requests of its own, the
//! callbacks, which the bridge answers.

use crate::json;
use crate::json::text_at;
use crate::json::Json;
use crate::json::JsonModel;
use crate::text;
use crate::text::str_eq;
use crate::zcode_warm::WarmMode;
use crate::zcode_warm_permissions;
use crate::zcode_warm_permissions::DENY_ALL_REASON;
use vstd::prelude::*;

verus! {

broadcast use vstd::string::group_string_axioms;

/// A rejected request, with the root-level keys the core flagged as
/// unrecognized, so that schema drift can be retried and logged.
#[derive(Clone, Debug)]
pub struct ProtocolRequestError {
    pub message: String,
    pub unrecognized_keys: Vec<String>,
}

/// What a rejection says.
pub struct RequestErrorModel {
    pub message: Seq<char>,
    pub unrecognized_keys: Seq<Seq<char>>,
}

impl DeepView for ProtocolRequestError {
    type V = RequestErrorModel;

    open spec fn deep_view(&self) -> RequestErrorModel {
        RequestErrorModel {
            message: self.message@,
            unrecognized_keys: self.unrecognized_keys.deep_view(),
        }
    }
}

/// A rejection without flagged keys.
pub open spec fn plain_error(message: Seq<char>) -> RequestErrorModel {
    RequestErrorModel { message, unrecognized_keys: Seq::empty() }
}

/// The outcome of a request, over models.
pub open spec fn outcome_model(outcome: Result<Json, ProtocolRequestError>) -> Result<
    JsonModel,
    RequestErrorModel,
> {
    match outcome {
        Ok(result) => Ok(result@),
        Err(error) => Err(error.deep_view()),
    }
}

/// The strings among the items of an array.
pub open spec fn strings_of(items: Seq<JsonModel>) -> Seq<Seq<char>>
    decreases items.len(),
{
    if items.len() == 0 {
        Seq::empty()
    } else {
        match items.last() {
            JsonModel::Str(text) => strings_of(items.drop_last()).push(text),
            _ => strings_of(items.drop_last()),
        }
    }
}

/// Whether a schema issue flags unrecognized keys at the root. Only those are
/// safely strippable; nested ones point at params the bridge does not rebuild.
pub open spec fn root_issue(issue: JsonModel) -> bool {
    issue.str_at("code"@) == Some("unrecognized_keys"@) && match issue.get("path"@) {
        Some(JsonModel::Array(path)) => path.len() == 0,
        _ => false,
    }
}

/// The keys that one schema issue flags as unrecognized at the root.
pub open spec fn issue_keys(issue: JsonModel) -> Seq<Seq<char>> {
    match issue.get("keys"@) {
        Some(JsonModel::Array(keys)) => if root_issue(issue) {
            strings_of(keys)
        } else {
            Seq::empty()
        },
        _ => Seq::empty(),
    }
}

/// The keys that a list of schema issues flags as unrecognized at the root.
pub open spec fn issues_keys(issues: Seq<JsonModel>) -> Seq<Seq<char>>
    decreases issues.len(),
{
    if issues.len() == 0 {
        Seq::empty()
    } else {
        issues_keys(issues.drop_last()) + issue_keys(issues.last())
    }
}

/// The keys that what should be a list of schema issues flags.
pub open spec fn flagged_keys(issues: JsonModel) -> Seq<Seq<char>> {
    match issues {
        JsonModel::Array(items) => issues_keys(items),
        _ => Seq::empty(),
    }
}

/// The code of a rejection over invalid params.
pub const INVALID_PARAMS: i64 = -32602;

/// The code of a rejection over an unknown method.
pub const METHOD_NOT_FOUND: i64 = -32601;

/// What an `error` member says. An invalid-params rejection carries its issue
/// list as JSON text in `data.message`.
pub open spec fn protocol_error(error: JsonModel) -> RequestErrorModel {
    let rejected = match error.get("code"@) {
        Some(code) => code.as_i64() == Some(INVALID_PARAMS),
        None => false,
    };
    RequestErrorModel {
        message: match error.str_at("message"@) {
            Some(message) => message,
            None => "unknown ZCode Protocol error"@,
        },
        unrecognized_keys: match json::str_in(error.get("data"@), "message"@) {
            Some(issues) => match json::read_text(issues) {
                Ok(issues) => if rejected {
                    flagged_keys(issues)
                } else {
                    Seq::empty()
                },
                Err(_) => Seq::empty(),
            },
            None => Seq::empty(),
        },
    }
}

fn push_strings(keys: &mut Vec<String>, items: &Vec<Json>)
    ensures
        final(keys).deep_view() == old(keys).deep_view() + strings_of(items.deep_view()),
{
    let ghost before = keys.deep_view();
    let ghost all = items.deep_view();
    let mut i: usize = 0;
    assert(keys.deep_view() =~= before + strings_of(all.take(0)));
    while i < items.len()
        invariant
            i <= items@.len(),
            all == items.deep_view(),
            keys.deep_view() == before + strings_of(all.take(i as int)),
        decreases items@.len() - i,
    {
        let ghost so_far = keys.deep_view();
        assert(all.take(i + 1).drop_last() =~= all.take(i as int));
        assert(all.take(i + 1).last() == items@[i as int]@);
        if let Some(text) = items[i].as_str() {
            keys.push(text.to_owned());
            assert(keys.deep_view() =~= so_far.push(text@));
            assert(keys.deep_view() =~= before + strings_of(all.take(i + 1)));
        }
        i = i + 1;
    }
    assert(all.take(all.len() as int) =~= all);
}

fn push_issue_keys(keys: &mut Vec<String>, issue: &Json)
    ensures
        final(keys).deep_view() == old(keys).deep_view() + issue_keys(issue@),
{
    assert(keys.deep_view() + Seq::<Seq<char>>::empty() =~= keys.deep_view());
    if !text::opt_str_is(issue.str_at("code"), "unrecognized_keys") {
        return ;
    }
    let at_root = match issue.get("path") {
        Some(path) => match path.as_array() {
            Some(path) => path.len() == 0,
            None => false,
        },
        None => false,
    };
    if !at_root {
        return ;
    }
    if let Some(flagged) = issue.get("keys") {
        if let Some(flagged) = flagged.as_array() {
            push_strings(keys, flagged);
        }
    }
}

/// The keys that what should be a list of schema issues flags as unrecognized
/// at the root.
pub fn unrecognized_root_keys(issues: &Json) -> (keys: Vec<String>)
    ensures
        keys.deep_view() == flagged_keys(issues@),
{
    let mut keys: Vec<String> = Vec::new();
    assert(keys.deep_view() =~= Seq::<Seq<char>>::empty());
    if let Some(items) = issues.as_array() {
        let ghost all = items.deep_view();
        let mut i: usize = 0;
        while i < items.len()
            invariant
                i <= items@.len(),
                all == items.deep_view(),
                keys.deep_view() == issues_keys(all.take(i as int)),
            decreases items@.len() - i,
        {
            assert(all.take(i + 1).drop_last() =~= all.take(i as int));
            assert(all.take(i + 1).last() == items@[i as int]@);
            push_issue_keys(&mut keys, &items[i]);
            i = i + 1;
        }
        assert(all.take(all.len() as int) =~= all);
    }
    keys
}

impl ProtocolRequestError {
    /// A rejection without flagged keys.
    pub fn plain(message: String) -> (error: Self)
        ensures
            error.deep_view() == plain_error(message@),
    {
        let error = ProtocolRequestError { message, unrecognized_keys: Vec::new() };
        assert(error.unrecognized_keys.deep_view() =~= Seq::<Seq<char>>::empty());
        error
    }

    /// Reads the `error` member of a response.
    pub fn from_protocol_error(error: &Json) -> (parsed: Self)
        ensures
            parsed.deep_view() == protocol_error(error@),
    {
        let message = match error.str_at("message") {
            Some(message) => message.to_owned(),
            None => "unknown ZCode Protocol error".to_owned(),
        };
        let mut parsed = ProtocolRequestError::plain(message);
        let rejected = match error.get("code") {
            Some(code) => match code.as_i64() {
                Some(code) => code == INVALID_PARAMS,
                None => false,
            },
            None => false,
        };
        if !rejected {
            return parsed;
        }
        if let Some(issues) = text_at(error.get("data"), "message") {
            if let Ok(issues) = Json::read(issues) {
                parsed.unrecognized_keys = unrecognized_root_keys(&issues);
            }
        }
        parsed
    }
}

/// What follows the first outcome of a request.
#[derive(Debug)]
pub enum CompatStep {
    /// The request is over.
    Done(Result<Json, String>),
    /// Send the request once more with these params.
    Retry(Json),
}

/// What follows the first outcome of a request, over models.
pub enum CompatModel {
    Done(Result<JsonModel, Seq<char>>),
    Retry(JsonModel),
}

impl DeepView for CompatStep {
    type V = CompatModel;

    open spec fn deep_view(&self) -> CompatModel {
        match self {
            CompatStep::Done(result) => CompatModel::Done(json::read_model(*result)),
            CompatStep::Retry(params) => CompatModel::Retry(params@),
        }
    }
}

/// A finished request: its result, or the message of its rejection.
pub open spec fn final_outcome(outcome: Result<JsonModel, RequestErrorModel>) -> Result<
    JsonModel,
    Seq<char>,
> {
    match outcome {
        Ok(result) => Ok(result),
        Err(error) => Err(error.message),
    }
}

/// What follows the first outcome of a request that was sent with `params`: a
/// rejection that flags keys is retried without them.
pub open spec fn compat_step(
    params: JsonModel,
    outcome: Result<JsonModel, RequestErrorModel>,
) -> CompatModel {
    match outcome {
        Err(error) => if error.unrecognized_keys.len() > 0 {
            CompatModel::Retry(params.without(error.unrecognized_keys))
        } else {
            CompatModel::Done(final_outcome(outcome))
        },
        Ok(_) => CompatModel::Done(final_outcome(outcome)),
    }
}

/// Decides what follows the first outcome of a request.
///
/// The desktop app updates the core under the bridge, so its schema can drift;
/// the desktop host answers the same drift by stripping the flagged fields and
/// retrying.
pub fn after_first_outcome(
    params: &Json,
    outcome: Result<Json, ProtocolRequestError>,
) -> (step: CompatStep)
    ensures
        step.deep_view() == compat_step(params@, outcome_model(outcome)),
{
    match outcome {
        Ok(result) => CompatStep::Done(Ok(result)),
        Err(error) => if error.unrecognized_keys.len() > 0 {
            CompatStep::Retry(params.without(&error.unrecognized_keys))
        } else {
            CompatStep::Done(Err(error.message))
        },
    }
}

/// The result of a request that was retried: it is not retried again.
pub fn after_retry(outcome: Result<Json, ProtocolRequestError>) -> (result: Result<Json, String>)
    ensures
        json::read_model(result) == final_outcome(outcome_model(outcome)),
{
    match outcome {
        Ok(result) => Ok(result),
        Err(error) => Err(error.message),
    }
}

/// The frame of a request.
pub open spec fn request_frame_model(
    id: i64,
    method: Seq<char>,
    params: JsonModel,
) -> JsonModel {
    json::object_model().with("id"@, JsonModel::Int(id as int)).with(
        "method"@,
        JsonModel::Str(method),
    ).with("params"@, params)
}

/// The frame of a request.
pub fn request_frame(id: i64, method: &str, params: Json) -> (frame: Json)
    ensures
        frame@ == request_frame_model(id, method@, params@),
{
    Json::object().with("id", Json::NegInt(id)).with("method", Json::text(method)).with(
        "params",
        params,
    )
}

/// A frame as it is written: one line of JSON text and its line feed.
pub open spec fn frame_line(frame: JsonModel) -> Seq<char> {
    json::json_text(frame) + "\n"@
}

/// A frame as it is written: one line of JSON text and its line feed.
pub fn write_frame(frame: &Json) -> (line: String)
    ensures
        line@ == frame_line(frame@),
        !line@.drop_last().contains('\n'),
        line@.last() == '\n',
{
    proof {
        reveal_strlit("\n");
    }
    let text = frame.render();
    let line = text.clone().concat("\n");
    assert(line@.drop_last() =~= text@);
    line
}

/// How the wait for an answer ended.
#[derive(Debug)]
pub enum RequestWait {
    Answered(Result<Json, ProtocolRequestError>),
    /// The waiter was dropped without an answer.
    Dropped,
    /// No answer arrived in time.
    Elapsed,
}

/// The outcome of a request, by how the wait for its answer ended.
pub open spec fn request_outcome_model(method: Seq<char>, wait: RequestWait) -> Result<
    JsonModel,
    RequestErrorModel,
> {
    match wait {
        RequestWait::Answered(Ok(result)) => Ok(result@),
        RequestWait::Answered(Err(error)) => Err(
            RequestErrorModel {
                message: method + " failed: "@ + error.message@,
                unrecognized_keys: error.unrecognized_keys.deep_view(),
            },
        ),
        RequestWait::Dropped => Err(plain_error(method + " wait aborted: reader exited"@)),
        RequestWait::Elapsed => Err(plain_error(method + " timed out"@)),
    }
}

/// The reason for which the child is killed when a request times out.
pub fn timeout_reason(method: &str) -> (reason: String)
    ensures
        reason@ == method@ + " timed out"@,
{
    method.to_owned().concat(" timed out")
}

/// The outcome of a request, by how the wait for its answer ended. After
/// [`RequestWait::Elapsed`] the child is killed for [`timeout_reason`].
pub fn request_outcome(method: &str, wait: RequestWait) -> (outcome: Result<
    Json,
    ProtocolRequestError,
>)
    ensures
        outcome_model(outcome) == request_outcome_model(method@, wait),
{
    match wait {
        RequestWait::Answered(Ok(result)) => Ok(result),
        RequestWait::Answered(Err(error)) => Err(
            ProtocolRequestError {
                message: method.to_owned().concat(" failed: ").concat(error.message.as_str()),
                unrecognized_keys: error.unrecognized_keys,
            },
        ),
        RequestWait::Dropped => Err(
            ProtocolRequestError::plain(method.to_owned().concat(" wait aborted: reader exited")),
        ),
        RequestWait::Elapsed => Err(ProtocolRequestError::plain(timeout_reason(method))),
    }
}

/// The `result` that a callback gets, where the host has an answer for it.
pub open spec fn callback_result(mode: WarmMode, method: Seq<char>) -> Option<JsonModel> {
    if method == "session/requestRuntimePreferences"@ {
        Some(
            json::object_model().with(
                "askUserQuestionAutoResolutionEnabled"@,
                JsonModel::Bool(true),
            ).with("nativeSearchEnhancementsEnabled"@, JsonModel::Bool(false)).with(
                "memoryEnabled"@,
                JsonModel::Bool(false),
            ),
        )
    } else if method == "interaction/requestProviderRuntimeHeaders"@ {
        Some(
            json::object_model().with("headersApplied"@, JsonModel::Bool(false)).with(
                "errorMessage"@,
                JsonModel::Str("Provider request auth is unavailable"@),
            ),
        )
    } else if method == "interaction/requestOfficialMcpAuthHeaders"@ {
        Some(
            json::object_model().with("ok"@, JsonModel::Bool(false)).with(
                "reason"@,
                JsonModel::Str("official_auth_unavailable"@),
            ),
        )
    } else if method == "interaction/requestPermission"@ && mode == WarmMode::Build {
        Some(
            json::object_model().with("decision"@, JsonModel::Str("deny"@)).with(
                "reason"@,
                JsonModel::Str(DENY_ALL_REASON@),
            ),
        )
    } else if method == "interaction/requestUserInput"@ && mode == WarmMode::Build {
        Some(
            json::object_model().with("action"@, JsonModel::Str("decline"@)).with(
                "reason"@,
                JsonModel::Str(
                    "Declined by the Codex host: the warm ZCode bridge has no interactive approver"@,
                ),
            ),
        )
    } else {
        None
    }
}

/// The frame that answers a callback: its result, or a rejection of a method
/// the host does not handle.
pub open spec fn callback_frame(mode: WarmMode, id: JsonModel, method: Seq<char>) -> JsonModel {
    match callback_result(mode, method) {
        Some(result) => json::object_model().with("id"@, id).with("result"@, result),
        None => json::object_model().with("id"@, id).with(
            "error"@,
            json::object_model().with("code"@, JsonModel::Int(METHOD_NOT_FOUND as int)).with(
                "message"@,
                JsonModel::Str("unsupported host callback: "@ + method),
            ),
        ),
    }
}

fn callback_answer(mode: WarmMode, method: &str) -> (result: Option<Json>)
    ensures
        result.deep_view() == callback_result(mode, method@),
{
    let gated = match mode {
        WarmMode::Build => true,
        WarmMode::Yolo => false,
    };
    if str_eq(method, "session/requestRuntimePreferences") {
        // The native search enhancements stay off: the core gates its search
        // runner's backend on them and a headless host has none.
        Some(
            Json::object().with("askUserQuestionAutoResolutionEnabled", Json::Bool(true)).with(
                "nativeSearchEnhancementsEnabled",
                Json::Bool(false),
            ).with("memoryEnabled", Json::Bool(false)),
        )
    } else if str_eq(method, "interaction/requestProviderRuntimeHeaders") {
        Some(
            Json::object().with("headersApplied", Json::Bool(false)).with(
                "errorMessage",
                Json::text("Provider request auth is unavailable"),
            ),
        )
    } else if str_eq(method, "interaction/requestOfficialMcpAuthHeaders") {
        Some(
            Json::object().with("ok", Json::Bool(false)).with(
                "reason",
                Json::text("official_auth_unavailable"),
            ),
        )
    } else if str_eq(method, "interaction/requestPermission") && gated {
        Some(
            Json::object().with("decision", Json::text("deny")).with(
                "reason",
                Json::text(DENY_ALL_REASON),
            ),
        )
    } else if str_eq(method, "interaction/requestUserInput") && gated {
        Some(
            Json::object().with("action", Json::text("decline")).with(
                "reason",
                Json::text(
                    "Declined by the Codex host: the warm ZCode bridge has no interactive approver",
                ),
            ),
        )
    } else {
        None
    }
}

/// Answers a callback of the core the way the desktop host does. Callbacks
/// that ask for auth material fail fast, interaction callbacks of a gated
/// session are denied, and unknown ones are rejected, so that the core never
/// waits out its request timeout.
pub fn answer_callback(mode: WarmMode, id: Json, method: &str) -> (frame: Json)
    ensures
        frame@ == callback_frame(mode, id@, method@),
{
    match callback_answer(mode, method) {
        Some(result) => Json::object().with("id", id).with("result", result),
        None => Json::object().with("id", id).with(
            "error",
            Json::object().with("code", Json::NegInt(METHOD_NOT_FOUND)).with(
                "message",
                Json::Str("unsupported host callback: ".to_owned().concat(method)),
            ),
        ),
    }
}

/// Log previews of callback inputs are cut to this many characters.
pub const CALLBACK_PREVIEW_CAP: usize = 200;

/// A string of a callback's params, or `default`.
pub open spec fn param_or(params: JsonModel, key: Seq<char>, default: Seq<char>) -> Seq<char> {
    match params.str_at(key) {
        Some(text) => text,
        None => default,
    }
}

/// The log line that a callback leaves, if it leaves one.
pub open spec fn callback_note_model(
    mode: WarmMode,
    method: Seq<char>,
    params: JsonModel,
) -> Option<Seq<char>> {
    if method == "session/requestRuntimePreferences"@ {
        None
    } else if method == "interaction/requestProviderRuntimeHeaders"@ {
        Some("ZCode warm provider runtime-headers callback: no auth resolver, failing fast"@)
    } else if method == "interaction/requestOfficialMcpAuthHeaders"@ {
        Some("ZCode warm official MCP auth-headers callback: no resolver, failing fast"@)
    } else if method == "interaction/requestPermission"@ && mode == WarmMode::Build {
        let input = match params.get("input"@) {
            Some(input) => text::first_chars(json::json_text(input), CALLBACK_PREVIEW_CAP as nat),
            None => Seq::empty(),
        };
        Some(
            "ZCode warm permission request denied: tool="@ + param_or(
                params,
                "toolName"@,
                "unknown"@,
            ) + " risk="@ + param_or(params, "riskLevel"@, "unknown"@) + " reason="@ + param_or(
                params,
                "reason"@,
                ""@,
            ) + " input="@ + input,
        )
    } else if method == "interaction/requestUserInput"@ && mode == WarmMode::Build {
        Some(
            "ZCode warm user-input request declined: prompt="@ + text::first_chars(
                param_or(params, "prompt"@, ""@),
                CALLBACK_PREVIEW_CAP as nat,
            ),
        )
    } else {
        Some("ZCode warm app-server callback "@ + method + " has no host handler; rejecting"@)
    }
}

fn param<'a>(params: &'a Json, key: &str, default: &'a str) -> (text: &'a str)
    ensures
        text@ == param_or(params@, key@, default@),
{
    match params.str_at(key) {
        Some(text) => text,
        None => default,
    }
}

/// The log line that a callback leaves, if it leaves one: what a gated core
/// wanted to do is shown with a bounded preview of its input.
pub fn callback_note(mode: WarmMode, method: &str, params: &Json) -> (note: Option<String>)
    ensures
        note.deep_view() == callback_note_model(mode, method@, params@),
{
    let gated = match mode {
        WarmMode::Build => true,
        WarmMode::Yolo => false,
    };
    if str_eq(method, "session/requestRuntimePreferences") {
        None
    } else if str_eq(method, "interaction/requestProviderRuntimeHeaders") {
        Some(
            "ZCode warm provider runtime-headers callback: no auth resolver, failing fast".to_owned(),
        )
    } else if str_eq(method, "interaction/requestOfficialMcpAuthHeaders") {
        Some("ZCode warm official MCP auth-headers callback: no resolver, failing fast".to_owned())
    } else if str_eq(method, "interaction/requestPermission") && gated {
        let input = match params.get("input") {
            Some(input) => text::take_chars(input.render().as_str(), CALLBACK_PREVIEW_CAP),
            None => String::new(),
        };
        Some(
            "ZCode warm permission request denied: tool=".to_owned().concat(
                param(params, "toolName", "unknown"),
            ).concat(" risk=").concat(param(params, "riskLevel", "unknown")).concat(
                " reason=",
            ).concat(param(params, "reason", "")).concat(" input=").concat(input.as_str()),
        )
    } else if str_eq(method, "interaction/requestUserInput") && gated {
        let prompt = text::take_chars(param(params, "prompt", ""), CALLBACK_PREVIEW_CAP);
        Some("ZCode warm user-input request declined: prompt=".to_owned().concat(prompt.as_str()))
    } else {
        Some(
            "ZCode warm app-server callback ".to_owned().concat(method).concat(
                " has no host handler; rejecting",
            ),
        )
    }
}

/// Where a frame from the core goes, over models.
#[allow(inconsistent_fields)]
pub enum RouteModel {
    /// A callback to answer.
    Callback { id: JsonModel, method: Seq<char>, params: JsonModel },
    /// The response to a request.
    Response { id: i64, outcome: Result<JsonModel, RequestErrorModel> },
    /// A session event.
    Event(JsonModel),
    /// Nothing the bridge looks at.
    Ignored,
}

/// Where a frame from the core goes.
#[derive(Debug)]
#[allow(inconsistent_fields)]
pub enum Route {
    /// A callback to answer.
    Callback { id: Json, method: String, params: Json },
    /// The response to a request.
    Response { id: i64, outcome: Result<Json, ProtocolRequestError> },
    /// A session event.
    Event(Json),
    /// Nothing the bridge looks at.
    Ignored,
}

impl DeepView for Route {
    type V = RouteModel;

    open spec fn deep_view(&self) -> RouteModel {
        match self {
            Route::Callback { id, method, params } => RouteModel::Callback {
                id: id@,
                method: method@,
                params: params@,
            },
            Route::Response { id, outcome } => RouteModel::Response {
                id: *id,
                outcome: outcome_model(*outcome),
            },
            Route::Event(params) => RouteModel::Event(params@),
            Route::Ignored => RouteModel::Ignored,
        }
    }
}

/// The outcome that a response frame reports. A result counts before an
/// error.
pub open spec fn response_outcome(frame: JsonModel, id: JsonModel) -> Result<
    JsonModel,
    RequestErrorModel,
> {
    match (frame.get("result"@), frame.get("error"@)) {
        (Some(result), _) => Ok(result),
        (None, Some(error)) => Err(protocol_error(error)),
        (None, None) => Err(
            plain_error("malformed ZCode Protocol response for id "@ + json::json_text(id)),
        ),
    }
}

/// Where a frame goes: with an id and a method it is a callback, with an id
/// alone a response, and a `session/event` without id carries an event.
pub open spec fn route_of(frame: JsonModel) -> RouteModel {
    match (frame.get("id"@), frame.str_at("method"@)) {
        (Some(id), Some(method)) => RouteModel::Callback {
            id,
            method,
            params: match frame.get("params"@) {
                Some(params) => params,
                None => JsonModel::Null,
            },
        },
        (Some(id), None) => match id.as_i64() {
            Some(number) => RouteModel::Response {
                id: number,
                outcome: response_outcome(frame, id),
            },
            None => RouteModel::Ignored,
        },
        (None, Some(method)) => if method == "session/event"@ {
            match frame.get("params"@) {
                Some(params) => RouteModel::Event(params),
                None => RouteModel::Ignored,
            }
        } else {
            RouteModel::Ignored
        },
        (None, None) => RouteModel::Ignored,
    }
}

/// Decides where a frame from the core goes.
pub fn route_frame(frame: &Json) -> (route: Route)
    ensures
        route.deep_view() == route_of(frame@),
{
    let method = frame.str_at("method");
    match frame.get("id") {
        Some(id) => {
            if let Some(method) = method {
                let params = match frame.get("params") {
                    Some(params) => params.clone(),
                    None => Json::Null,
                };
                return Route::Callback { id: id.clone(), method: method.to_owned(), params };
            }
            let number: i64 = match id.as_i64() {
                Some(number) => number,
                None => return Route::Ignored,
            };
            let outcome = match (frame.get("result"), frame.get("error")) {
                (Some(result), _) => Ok(result.clone()),
                (None, Some(error)) => Err(ProtocolRequestError::from_protocol_error(error)),
                (None, None) => Err(
                    ProtocolRequestError::plain(
                        "malformed ZCode Protocol response for id ".to_owned().concat(
                            id.render().as_str(),
                        ),
                    ),
                ),
            };
            Route::Response { id: number, outcome }
        },
        None => {
            if text::opt_str_is(method, "session/event") {
                if let Some(params) = frame.get("params") {
                    return Route::Event(params.clone());
                }
            }
            Route::Ignored
        },
    }
}

/// Where a line from the core goes. What is no JSON is noise from nested
/// processes.
pub open spec fn route_of_line(line: Seq<char>) -> RouteModel {
    match json::read_text(line) {
        Ok(frame) => route_of(frame),
        Err(_) => RouteModel::Ignored,
    }
}

/// Decides where a line from the core goes.
pub fn route_line(line: &str) -> (route: Route)
    ensures
        route.deep_view() == route_of_line(line@),
{
    match Json::read(line) {
        Ok(frame) => route_frame(&frame),
        Err(_) => Route::Ignored,
    }
}

/// Every callback is answered under its own id, with either a result or a
/// rejection, and never with both.
pub proof fn law_every_callback_is_answered(mode: WarmMode, id: JsonModel, method: Seq<char>)
    ensures
        callback_frame(mode, id, method).get("id"@) == Some(id),
        callback_frame(mode, id, method).get("result"@) == callback_result(mode, method),
        callback_frame(mode, id, method).get("error"@) is Some <==> callback_result(mode, method)
            is None,
{
    reveal_strlit("id");
    reveal_strlit("result");
    reveal_strlit("error");
    assert("id"@.len() != "result"@.len());
    assert("id"@.len() != "error"@.len());
    assert("result"@.len() != "error"@.len());
}

/// A gated session denies every permission request, and for the reason that
/// the policy gives which denies everything; an ungated session rejects the
/// request as unknown.
pub proof fn law_permission_requests_are_denied(
    tier: zcode_warm_permissions::RiskTier,
)
    ensures
        ({
            let answer = callback_result(WarmMode::Build, "interaction/requestPermission"@);
            let policy = zcode_warm_permissions::WarmPermissionPolicy::DenyAll;
            &&& answer is Some
            &&& answer->0.str_at("decision"@) == Some(
                zcode_warm_permissions::decision_on(policy, tier),
            )
            &&& answer->0.str_at("reason"@) == Some(
                zcode_warm_permissions::reason_on(policy, tier),
            )
        }),
        callback_result(WarmMode::Yolo, "interaction/requestPermission"@) is None,
        callback_result(WarmMode::Yolo, "interaction/requestUserInput"@) is None,
{
    lemma_callback_methods_differ();
    reveal_strlit("decision");
    reveal_strlit("reason");
    assert("decision"@.len() != "reason"@.len());
}

proof fn lemma_callback_methods_differ()
    ensures
        "interaction/requestPermission"@ != "session/requestRuntimePreferences"@,
        "interaction/requestPermission"@ != "interaction/requestProviderRuntimeHeaders"@,
        "interaction/requestPermission"@ != "interaction/requestOfficialMcpAuthHeaders"@,
        "interaction/requestUserInput"@ != "session/requestRuntimePreferences"@,
        "interaction/requestUserInput"@ != "interaction/requestProviderRuntimeHeaders"@,
        "interaction/requestUserInput"@ != "interaction/requestOfficialMcpAuthHeaders"@,
        "interaction/requestUserInput"@ != "interaction/requestPermission"@,
{
    reveal_strlit("session/requestRuntimePreferences");
    reveal_strlit("interaction/requestProviderRuntimeHeaders");
    reveal_strlit("interaction/requestOfficialMcpAuthHeaders");
    reveal_strlit("interaction/requestPermission");
    reveal_strlit("interaction/requestUserInput");
    assert("interaction/requestPermission"@[0] != "session/requestRuntimePreferences"@[0]);
    assert("interaction/requestUserInput"@[0] != "session/requestRuntimePreferences"@[0]);
    assert("interaction/requestPermission"@.len()
        != "interaction/requestProviderRuntimeHeaders"@.len());
    assert("interaction/requestPermission"@.len()
        != "interaction/requestOfficialMcpAuthHeaders"@.len());
    assert("interaction/requestUserInput"@.len()
        != "interaction/requestProviderRuntimeHeaders"@.len());
    assert("interaction/requestUserInput"@.len()
        != "interaction/requestOfficialMcpAuthHeaders"@.len());
    assert("interaction/requestUserInput"@.len() != "interaction/requestPermission"@.len());
}

/// The retry of a request drops exactly the flagged keys: none of them is sent
/// again, and everything else is sent as before.
pub proof fn law_retry_drops_exactly_the_flagged_keys(
    params: JsonModel,
    keys: Seq<Seq<char>>,
    key: Seq<char>,
)
    ensures
        params.without(keys).get(key) == (if keys.contains(key) {
            None
        } else {
            params.get(key)
        }),
{
}

/// A request is sent again only over a rejection that flags keys, and then
/// without them.
pub proof fn law_only_flagged_rejections_are_retried(
    params: JsonModel,
    outcome: Result<JsonModel, RequestErrorModel>,
)
    ensures
        compat_step(params, outcome) is Retry <==> outcome is Err
            && outcome->Err_0.unrecognized_keys.len() > 0,
{
}

/// The answer to a request comes back to it: a frame with the request's id and
/// a result is routed as the successful outcome of that request.
pub proof fn law_answer_reaches_its_request(id: i64, result: JsonModel)
    ensures
        route_of(
            json::object_model().with("id"@, JsonModel::Int(id as int)).with("result"@, result),
        ) == (RouteModel::Response { id, outcome: Ok(result) }),
{
    reveal_strlit("id");
    reveal_strlit("result");
    reveal_strlit("method");
    assert("id"@.len() != "result"@.len());
    assert("id"@.len() != "method"@.len());
    assert("result"@[0] != "method"@[0]);
}

/// The strings of a list are all its strings, as they are and in order, and
/// nothing else.
pub proof fn law_all_strings_of_a_list_are_taken(
    before: Seq<JsonModel>,
    item: JsonModel,
    after: Seq<JsonModel>,
)
    ensures
        strings_of(Seq::empty()) == Seq::<Seq<char>>::empty(),
        match item {
            JsonModel::Str(text) => strings_of(before.push(item) + after) == strings_of(
                before,
            ).push(text) + strings_of(after),
            _ => strings_of(before.push(item) + after) == strings_of(before) + strings_of(after),
        },
    decreases after.len(),
{
    let all = before.push(item) + after;
    if after.len() == 0 {
        assert(all =~= before.push(item));
        assert(all.drop_last() =~= before);
    } else {
        law_all_strings_of_a_list_are_taken(before, item, after.drop_last());
        assert(all.drop_last() =~= before.push(item) + after.drop_last());
        assert(all.last() == after.last());
    }
    match item {
        JsonModel::Str(text) => {
            assert(strings_of(all) =~= strings_of(before).push(text) + strings_of(after));
        },
        _ => {
            assert(strings_of(all) =~= strings_of(before) + strings_of(after));
        },
    }
}

/// The keys that issues flag are those of each issue in turn. An issue flags
/// the keys it lists exactly when it is one over unrecognized keys and its path
/// is the root; what is no list of issues flags none.
pub proof fn law_root_issues_flag_their_keys(
    before: Seq<JsonModel>,
    issue: JsonModel,
    after: Seq<JsonModel>,
    listed: Seq<JsonModel>,
)
    ensures
        ({
            let unrecognized = json::has_member(
                issue,
                "code"@,
                JsonModel::Str("unrecognized_keys"@),
            );
            let at_root = json::has_member(issue, "path"@, JsonModel::Array(Seq::empty()));
            let all = flagged_keys(JsonModel::Array(before.push(issue) + after));
            let earlier = flagged_keys(JsonModel::Array(before));
            let later = flagged_keys(JsonModel::Array(after));
            &&& unrecognized && at_root && json::has_member(issue, "keys"@, JsonModel::Array(listed))
                ==> all == earlier + strings_of(listed) + later
            &&& !unrecognized || !at_root ==> all == earlier + later
            &&& !(issue.get("keys"@) is Some && issue.get("keys"@)->0 is Array) ==> all == earlier
                + later
            &&& flagged_keys(JsonModel::Array(Seq::empty())) == Seq::<Seq<char>>::empty()
            &&& !(issue is Array) ==> flagged_keys(issue) == Seq::<Seq<char>>::empty()
        }),
    decreases after.len(),
{
    let all = before.push(issue) + after;
    if let Some(JsonModel::Array(path)) = issue.get("path"@) {
        if path.len() == 0 {
            assert(path =~= Seq::<JsonModel>::empty());
        }
    }
    if after.len() == 0 {
        assert(all =~= before.push(issue));
        assert(all.drop_last() =~= before);
        assert(issues_keys(before) + Seq::<Seq<char>>::empty() =~= issues_keys(before));
        assert(issues_keys(before) + issue_keys(issue) + Seq::<Seq<char>>::empty() =~= issues_keys(
            before,
        ) + issue_keys(issue));
    } else {
        law_root_issues_flag_their_keys(before, issue, after.drop_last(), listed);
        assert(all.drop_last() =~= before.push(issue) + after.drop_last());
        assert(all.last() == after.last());
        let last = issue_keys(after.last());
        let middle = issues_keys(after.drop_last());
        assert(issues_keys(before) + middle + last =~= issues_keys(before) + (middle + last));
        assert(issues_keys(before) + strings_of(listed) + middle + last =~= issues_keys(before)
            + strings_of(listed) + (middle + last));
    }
}

/// A rejection is told in its own words, or as unknown where it has none. Its
/// flagged keys are read out of its data, and only where it is a rejection over
/// invalid params.
pub proof fn law_a_rejection_is_told_in_its_own_words(
    error: JsonModel,
    issues: Seq<char>,
    read: JsonModel,
)
    ensures
        ({
            let told = protocol_error(error);
            let rejected = json::has_member(error, "code"@, JsonModel::Int(-32602));
            let data = json::str_in(error.get("data"@), "message"@);
            &&& error.str_at("message"@) is Some ==> told.message == error.str_at("message"@)->0
            &&& error.str_at("message"@) is None ==> told.message
                == "unknown ZCode Protocol error"@
            &&& rejected && data == Some(issues) && json::read_text(issues) == Ok::<
                JsonModel,
                Seq<char>,
            >(read) ==> told.unrecognized_keys == flagged_keys(read)
            &&& !rejected || data is None ==> told.unrecognized_keys == Seq::<Seq<char>>::empty()
            &&& data == Some(issues) && json::read_text(issues) is Err ==> told.unrecognized_keys
                == Seq::<Seq<char>>::empty()
        }),
{
}

/// A request that succeeded is done with its result, one that was rejected for
/// good with the rejection's message, and one whose keys were flagged is sent
/// again with all its other params.
pub proof fn law_a_request_is_done_or_sent_again(
    params: JsonModel,
    result: JsonModel,
    error: RequestErrorModel,
)
    ensures
        compat_step(params, Ok(result)) == CompatModel::Done(Ok(result)),
        error.unrecognized_keys.len() == 0 ==> compat_step(params, Err(error))
            == CompatModel::Done(Err(error.message)),
        error.unrecognized_keys.len() > 0 ==> compat_step(params, Err(error))
            == CompatModel::Retry(params.without(error.unrecognized_keys)),
        final_outcome(Ok(result)) == Ok::<JsonModel, Seq<char>>(result),
        final_outcome(Err(error)) == Err::<JsonModel, Seq<char>>(error.message),
{
}

/// A request is framed by its id, its method and its params, and written as one
/// line.
pub proof fn law_a_request_is_framed_whole(
    id: i64,
    method: Seq<char>,
    params: JsonModel,
    key: Seq<char>,
    inner: JsonModel,
    frame: JsonModel,
)
    ensures
        json::has_member(request_frame_model(id, method, params), key, inner) <==> {
            ||| key == "id"@ && inner == JsonModel::Int(id as int)
            ||| key == "method"@ && inner == JsonModel::Str(method)
            ||| key == "params"@ && inner == params
        },
        frame_line(frame) == json::json_text(frame).push('\n'),
{
    reveal_strlit("id");
    reveal_strlit("method");
    reveal_strlit("params");
    reveal_strlit("\n");
    assert("id"@.len() != "method"@.len());
    assert("id"@.len() != "params"@.len());
    assert("method"@[0] != "params"@[0]);
    assert(frame_line(frame) =~= json::json_text(frame).push('\n'));
}

/// A wait ends as it was answered: with the result as it is, with the rejection
/// under the method's name and with the keys it flagged, or, without an answer,
/// with what happened instead.
pub proof fn law_a_wait_ends_as_it_was_answered(
    method: Seq<char>,
    result: Json,
    error: ProtocolRequestError,
)
    ensures
        request_outcome_model(method, RequestWait::Answered(Ok(result))) == Ok::<
            JsonModel,
            RequestErrorModel,
        >(result@),
        request_outcome_model(method, RequestWait::Answered(Err(error))) matches Err(told) && {
            &&& told.message == method + " failed: "@ + error.message@
            &&& told.unrecognized_keys == error.unrecognized_keys.deep_view()
        },
        request_outcome_model(method, RequestWait::Dropped) matches Err(told) && {
            &&& told.message == method + " wait aborted: reader exited"@
            &&& told.unrecognized_keys.len() == 0
        },
        request_outcome_model(method, RequestWait::Elapsed) matches Err(told) && {
            &&& told.message == method + " timed out"@
            &&& told.unrecognized_keys.len() == 0
        },
{
}

proof fn lemma_methods_differ()
    ensures
        "session/requestRuntimePreferences"@ != "interaction/requestProviderRuntimeHeaders"@,
        "session/requestRuntimePreferences"@ != "interaction/requestOfficialMcpAuthHeaders"@,
        "interaction/requestProviderRuntimeHeaders"@
            != "interaction/requestOfficialMcpAuthHeaders"@,
{
    lemma_callback_methods_differ();
    reveal_strlit("session/requestRuntimePreferences");
    reveal_strlit("interaction/requestProviderRuntimeHeaders");
    reveal_strlit("interaction/requestOfficialMcpAuthHeaders");
    assert("session/requestRuntimePreferences"@[0]
        != "interaction/requestProviderRuntimeHeaders"@[0]);
    assert("session/requestRuntimePreferences"@[0]
        != "interaction/requestOfficialMcpAuthHeaders"@[0]);
    assert("interaction/requestProviderRuntimeHeaders"@[19]
        != "interaction/requestOfficialMcpAuthHeaders"@[19]);
}

/// What the host prefers, and that it has no credentials to give, is answered
/// in every mode.
pub proof fn law_every_mode_answers_these_callbacks(
    mode: WarmMode,
    key: Seq<char>,
    inner: JsonModel,
)
    ensures
        callback_result(mode, "session/requestRuntimePreferences"@) matches Some(answer) && (
        json::has_member(answer, key, inner) <==> {
            ||| key == "askUserQuestionAutoResolutionEnabled"@ && inner == JsonModel::Bool(true)
            ||| key == "nativeSearchEnhancementsEnabled"@ && inner == JsonModel::Bool(false)
            ||| key == "memoryEnabled"@ && inner == JsonModel::Bool(false)
        }),
        callback_result(mode, "interaction/requestProviderRuntimeHeaders"@) matches Some(answer)
            && (json::has_member(answer, key, inner) <==> {
            ||| key == "headersApplied"@ && inner == JsonModel::Bool(false)
            ||| key == "errorMessage"@ && inner == JsonModel::Str(
                "Provider request auth is unavailable"@,
            )
        }),
        callback_result(mode, "interaction/requestOfficialMcpAuthHeaders"@) matches Some(answer)
            && (json::has_member(answer, key, inner) <==> {
            ||| key == "ok"@ && inner == JsonModel::Bool(false)
            ||| key == "reason"@ && inner == JsonModel::Str("official_auth_unavailable"@)
        }),
{
    lemma_methods_differ();
    reveal_strlit("askUserQuestionAutoResolutionEnabled");
    reveal_strlit("nativeSearchEnhancementsEnabled");
    reveal_strlit("memoryEnabled");
    reveal_strlit("headersApplied");
    reveal_strlit("errorMessage");
    reveal_strlit("ok");
    reveal_strlit("reason");
    assert("askUserQuestionAutoResolutionEnabled"@.len() == 36);
    assert("nativeSearchEnhancementsEnabled"@.len() == 31);
    assert("memoryEnabled"@.len() == 13);
    assert("headersApplied"@.len() == 14 && "errorMessage"@.len() == 12);
    assert("ok"@.len() == 2 && "reason"@.len() == 6);
}

/// A gated session denies what the core wants to do and declines what it asks,
/// and says why; no session answers a method that is none of these five.
pub proof fn law_a_gated_session_denies_and_declines(
    mode: WarmMode,
    method: Seq<char>,
    key: Seq<char>,
    inner: JsonModel,
)
    ensures
        callback_result(WarmMode::Build, "interaction/requestPermission"@) matches Some(answer) && (
        json::has_member(answer, key, inner) <==> {
            ||| key == "decision"@ && inner == JsonModel::Str("deny"@)
            ||| key == "reason"@ && inner == JsonModel::Str(
                "Denied by the Codex host: the warm ZCode bridge has no interactive approver"@,
            )
        }),
        callback_result(WarmMode::Build, "interaction/requestUserInput"@) matches Some(answer) && (
        json::has_member(answer, key, inner) <==> {
            ||| key == "action"@ && inner == JsonModel::Str("decline"@)
            ||| key == "reason"@ && inner == JsonModel::Str(
                "Declined by the Codex host: the warm ZCode bridge has no interactive approver"@,
            )
        }),
        callback_result(mode, method) is Some <==> {
            ||| method == "session/requestRuntimePreferences"@
            ||| method == "interaction/requestProviderRuntimeHeaders"@
            ||| method == "interaction/requestOfficialMcpAuthHeaders"@
            ||| mode == WarmMode::Build && method == "interaction/requestPermission"@
            ||| mode == WarmMode::Build && method == "interaction/requestUserInput"@
        },
{
    lemma_callback_methods_differ();
    reveal_strlit("decision");
    reveal_strlit("action");
    reveal_strlit("reason");
    assert("decision"@.len() == 8 && "reason"@.len() == 6);
    assert("action"@[0] != "reason"@[0]);
}

/// A callback without an answer is rejected under its id as an unknown method,
/// which is named; an answer holds the id and the result.
pub proof fn law_a_callback_without_answer_is_rejected(
    mode: WarmMode,
    id: JsonModel,
    method: Seq<char>,
    key: Seq<char>,
    inner: JsonModel,
)
    ensures
        ({
            let frame = callback_frame(mode, id, method);
            let answer = callback_result(mode, method);
            &&& answer is Some ==> (json::has_member(frame, key, inner) <==> {
                ||| key == "id"@ && inner == id
                ||| key == "result"@ && inner == answer->0
            })
            &&& answer is None ==> (json::has_member(frame, key, inner) <==> {
                ||| key == "id"@ && inner == id
                ||| key == "error"@ && Some(inner) == frame.get("error"@)
            })
            &&& answer is None ==> frame.get("error"@) is Some && (json::has_member(
                frame.get("error"@)->0,
                key,
                inner,
            ) <==> {
                ||| key == "code"@ && inner == JsonModel::Int(-32601)
                ||| key == "message"@ && inner == JsonModel::Str(
                    "unsupported host callback: "@ + method,
                )
            })
        }),
{
    reveal_strlit("id");
    reveal_strlit("result");
    reveal_strlit("error");
    reveal_strlit("code");
    reveal_strlit("message");
    assert("id"@.len() == 2 && "result"@.len() == 6 && "error"@.len() == 5);
    assert("code"@.len() == 4 && "message"@.len() == 7);
}

/// Whether a text of `params` under `key` is `text`, where a missing one stands
/// for `default`.
pub open spec fn tells_param(
    params: JsonModel,
    key: Seq<char>,
    default: Seq<char>,
    text: Seq<char>,
) -> bool {
    params.str_at(key) == Some(text) || (params.str_at(key) is None && text == default)
}

/// A denied permission request is logged by its tool, its risk, its reason and
/// the start of its input, and a declined question by the start of its prompt.
pub proof fn law_gated_requests_are_logged(
    params: JsonModel,
    tool: Seq<char>,
    risk: Seq<char>,
    reason: Seq<char>,
    prompt: Seq<char>,
)
    requires
        tells_param(params, "toolName"@, "unknown"@, tool),
        tells_param(params, "riskLevel"@, "unknown"@, risk),
        tells_param(params, "reason"@, Seq::empty(), reason),
        tells_param(params, "prompt"@, Seq::empty(), prompt),
    ensures
        ({
            let note = callback_note_model(
                WarmMode::Build,
                "interaction/requestPermission"@,
                params,
            );
            let start = "ZCode warm permission request denied: tool="@ + tool + " risk="@ + risk
                + " reason="@ + reason + " input="@;
            &&& params.get("input"@) is Some ==> note == Some(
                start + text::first_chars(json::json_text(params.get("input"@)->0), 200),
            )
            &&& params.get("input"@) is None ==> note == Some(start)
            &&& callback_note_model(WarmMode::Build, "interaction/requestUserInput"@, params)
                == Some(
                "ZCode warm user-input request declined: prompt="@ + text::first_chars(prompt, 200),
            )
        }),
{
    lemma_callback_methods_differ();
    reveal_strlit("");
    assert(""@ =~= Seq::<char>::empty());
    let start = "ZCode warm permission request denied: tool="@ + tool + " risk="@ + risk
        + " reason="@ + reason + " input="@;
    assert(start + Seq::<char>::empty() =~= start);
}

/// Asking for preferences is not logged, asking for credentials is, and what is
/// rejected is logged by its method.
pub proof fn law_other_callbacks_are_logged_by_method(
    mode: WarmMode,
    method: Seq<char>,
    params: JsonModel,
)
    ensures
        callback_note_model(mode, "session/requestRuntimePreferences"@, params) is None,
        callback_note_model(mode, "interaction/requestProviderRuntimeHeaders"@, params) == Some(
            "ZCode warm provider runtime-headers callback: no auth resolver, failing fast"@,
        ),
        callback_note_model(mode, "interaction/requestOfficialMcpAuthHeaders"@, params) == Some(
            "ZCode warm official MCP auth-headers callback: no resolver, failing fast"@,
        ),
        callback_result(mode, method) is None ==> callback_note_model(mode, method, params) == Some(
            "ZCode warm app-server callback "@ + method + " has no host handler; rejecting"@,
        ),
{
    lemma_methods_differ();
    lemma_callback_methods_differ();
}

/// A response reports its result, else its rejection, else that it is
/// malformed.
pub proof fn law_a_response_reports_its_outcome(
    frame: JsonModel,
    id: JsonModel,
    inner: JsonModel,
)
    ensures
        json::has_member(frame, "result"@, inner) ==> response_outcome(frame, id) == Ok::<
            JsonModel,
            RequestErrorModel,
        >(inner),
        frame.get("result"@) is None && json::has_member(frame, "error"@, inner)
            ==> response_outcome(frame, id) == Err::<JsonModel, RequestErrorModel>(
            protocol_error(inner),
        ),
        frame.get("result"@) is None && frame.get("error"@) is None ==> response_outcome(frame, id)
            == Err::<JsonModel, RequestErrorModel>(
            RequestErrorModel {
                message: "malformed ZCode Protocol response for id "@ + json::json_text(id),
                unrecognized_keys: Seq::empty(),
            },
        ),
{
}

/// A frame goes where its id and method say: both make a callback with its
/// params as they are, a whole-number id alone a response, a session event
/// alone an event, and everything else is ignored.
pub proof fn law_a_frame_goes_where_it_says(
    frame: JsonModel,
    id: JsonModel,
    method: Seq<char>,
    params: JsonModel,
    number: i64,
)
    ensures
        ({
            let route = route_of(frame);
            let has_id = json::has_member(frame, "id"@, id);
            let has_method = json::has_member(frame, "method"@, JsonModel::Str(method));
            let has_params = json::has_member(frame, "params"@, params);
            let no_id = frame.get("id"@) is None;
            let no_method = frame.str_at("method"@) is None;
            &&& has_id && has_method && has_params ==> route == (RouteModel::Callback {
                id,
                method,
                params,
            })
            &&& has_id && has_method && frame.get("params"@) is None ==> route == (
            RouteModel::Callback { id, method, params: JsonModel::Null })
            &&& has_id && no_method && id == JsonModel::Int(number as int) ==> route == (
            RouteModel::Response { id: number, outcome: response_outcome(frame, id) })
            &&& has_id && no_method && id.as_i64() is None ==> route is Ignored
            &&& no_id && has_method && method == "session/event"@ && has_params ==> route
                == RouteModel::Event(params)
            &&& no_id && has_method && method == "session/event"@ && frame.get("params"@) is None
                ==> route is Ignored
            &&& no_id && has_method && method != "session/event"@ ==> route is Ignored
            &&& no_id && no_method ==> route is Ignored
        }),
{
}

/// A line goes where the frame it holds goes, and is ignored only as noise where
/// it holds none.
pub proof fn law_a_line_goes_where_its_frame_goes(line: Seq<char>, frame: JsonModel)
    ensures
        json::read_text(line) == Ok::<JsonModel, Seq<char>>(frame) ==> route_of_line(line)
            == route_of(frame),
        json::read_text(line) is Err ==> route_of_line(line) is Ignored,
{
}

/// Outcomes, routes and steps are modelled by all that they hold.
pub proof fn law_routes_are_modelled_by_what_they_hold(
    outcome: Result<Json, ProtocolRequestError>,
    error: ProtocolRequestError,
    message: Seq<char>,
    route: Route,
    step: CompatStep,
)
    ensures
        outcome matches Ok(result) ==> outcome_model(outcome) == Ok::<
            JsonModel,
            RequestErrorModel,
        >(result@),
        outcome matches Err(rejected) ==> outcome_model(outcome) == Err::<
            JsonModel,
            RequestErrorModel,
        >(rejected.deep_view()),
        error.deep_view().message == error.message@,
        error.deep_view().unrecognized_keys == error.unrecognized_keys.deep_view(),
        plain_error(message).message == message,
        plain_error(message).unrecognized_keys.len() == 0,
        match route {
            Route::Callback { id, method, params } => route.deep_view() == (
            RouteModel::Callback { id: id@, method: method@, params: params@ }),
            Route::Response { id, outcome } => route.deep_view() == (RouteModel::Response {
                id,
                outcome: outcome_model(outcome),
            }),
            Route::Event(params) => route.deep_view() == RouteModel::Event(params@),
            Route::Ignored => route.deep_view() is Ignored,
        },
        match step {
            CompatStep::Done(result) => step.deep_view() == CompatModel::Done(
                json::read_model(result),
            ),
            CompatStep::Retry(params) => step.deep_view() == CompatModel::Retry(params@),
        },
{
}

/// A frame is written as one line and nothing more, and a request that timed out
/// is named.
pub proof fn law_a_frame_is_written_as_one_line(
    frame: &Json,
    line: String,
    method: &str,
    reason: String,
)
    requires
        call_ensures(write_frame, (frame,), line),
        call_ensures(timeout_reason, (method,), reason),
    ensures
        line@ == json::json_text(frame@).push('\n'),
        forall|i: int| 0 <= i < line@.len() - 1 ==> #[trigger] line@[i] != '\n',
        reason@ == method@ + " timed out"@,
{
    law_a_request_is_framed_whole(0, method@, frame@, method@, frame@, frame@);
    assert forall|i: int| 0 <= i < line@.len() - 1 implies #[trigger] line@[i] != '\n' by {
        assert(line@.drop_last()[i] == line@[i]);
    }
}

/// A frame and a line are routed where they go, and a callback is answered and
/// logged as its method asks.
pub proof fn law_frames_are_routed_and_callbacks_answered(
    frame: &Json,
    frame_route: Route,
    line: &str,
    line_route: Route,
    mode: WarmMode,
    id: Json,
    method: &str,
    answer: Json,
    params: &Json,
    note: Option<String>,
)
    requires
        call_ensures(route_frame, (frame,), frame_route),
        call_ensures(route_line, (line,), line_route),
        call_ensures(answer_callback, (mode, id, method), answer),
        call_ensures(callback_note, (mode, method, params), note),
    ensures
        frame_route.deep_view() == route_of(frame@),
        line_route.deep_view() == route_of_line(line@),
        answer@ == callback_frame(mode, id@, method@),
        note.deep_view() == callback_note_model(mode, method@, params@),
{
}

/// A request is framed, waited for, retried and given up as its outcomes say.
pub proof fn law_requests_end_as_their_outcomes_say(
    id: i64,
    method: &str,
    params: Json,
    frame: Json,
    wait: RequestWait,
    waited: Result<Json, ProtocolRequestError>,
    sent: &Json,
    outcome: Result<Json, ProtocolRequestError>,
    step: CompatStep,
    result: Result<Json, String>,
)
    requires
        call_ensures(request_frame, (id, method, params), frame),
        call_ensures(request_outcome, (method, wait), waited),
        call_ensures(after_first_outcome, (sent, outcome), step),
        call_ensures(after_retry, (outcome,), result),
    ensures
        frame@ == request_frame_model(id, method@, params@),
        outcome_model(waited) == request_outcome_model(method@, wait),
        step.deep_view() == compat_step(sent@, outcome_model(outcome)),
        json::read_model(result) == final_outcome(outcome_model(outcome)),
{
}

/// A rejection is read off its frame, with the keys that its issues flag.
pub proof fn law_a_rejection_is_read_off_its_frame(
    issues: &Json,
    keys: Vec<String>,
    error: &Json,
    parsed: ProtocolRequestError,
)
    requires
        call_ensures(unrecognized_root_keys, (issues,), keys),
        call_ensures(ProtocolRequestError::from_protocol_error, (error,), parsed),
    ensures
        keys.deep_view() == flagged_keys(issues@),
        parsed.deep_view() == protocol_error(error@),
{
}

} // verus!
