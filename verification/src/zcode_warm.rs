//! The warm bridge's turns: how a session is configured, how the events of
//! one turn become a response stream, and how a finished turn is classified.

use crate::json;
use crate::json::text_at;
use crate::json::Json;
use crate::json::JsonModel;
use crate::protocol::assistant_message;
use crate::protocol::assistant_model;
use crate::protocol::ApiError;
use crate::protocol::ApiErrorModel;
use crate::protocol::EventModel;
use crate::protocol::ResponseEvent;
use crate::protocol::TokenUsage;
use crate::text;
use crate::text::contains;
use crate::text::is_setting;
use crate::text::is_switched_on;
use crate::text::str_eq;
use crate::zcode_warm_events;
use crate::zcode_warm_events::bridge_tool_activity_from_notification;
use crate::zcode_warm_events::ToolNames;
use vstd::prelude::*;

verus! {

broadcast use vstd::string::group_string_axioms;

/// How the warm session balances gating against tool access.
///
/// In `Yolo` the core executes everything itself. `Build` makes the core ask
/// for permission through `interaction/*` callbacks; there is no interactive
/// approver on the host's side of the wire, so the bridge denies each request.
#[derive(Clone, Copy, Debug, PartialEq, Eq, Structural)]
pub enum WarmMode {
    Yolo,
    Build,
}

/// The `mode` value of a `session/create`.
pub open spec fn mode_name(mode: WarmMode) -> Seq<char> {
    match mode {
        WarmMode::Yolo => "yolo"@,
        WarmMode::Build => "build"@,
    }
}

impl WarmMode {
    /// The `mode` value sent in `session/create`.
    pub fn wire_session_mode(self) -> (name: &'static str)
        ensures
            name@ == mode_name(self),
    {
        match self {
            WarmMode::Yolo => "yolo",
            WarmMode::Build => "build",
        }
    }
}

/// The mode that a `ZCODE_WARM_MODE` value selects; unknown values stay on the
/// default ungated mode.
pub fn warm_mode_from_value(value: Option<&str>) -> (mode: WarmMode)
    ensures
        mode == (if text::setting_is(value.deep_view(), "build"@) {
            WarmMode::Build
        } else {
            WarmMode::Yolo
        }),
{
    if is_setting(value, "build") {
        WarmMode::Build
    } else {
        WarmMode::Yolo
    }
}

/// Whether a `ZCODE_WARM` value asks for the warm bridge.
pub fn warm_bridge_enabled_from_value(value: Option<&str>) -> (enabled: bool)
    ensures
        enabled == text::switched_on(value.deep_view()),
{
    is_switched_on(value)
}

/// The command line, behind the node executable, of the warm app-server.
pub open spec fn app_server_command(cjs: Seq<char>, workspace_path: Seq<char>) -> Seq<Seq<char>> {
    seq![cjs, "app-server"@, "--stdio"@, "--cwd"@, workspace_path]
}

/// The command line, behind the node executable, of the warm app-server.
pub fn app_server_arguments(cjs: &str, workspace_path: &str) -> (arguments: Vec<String>)
    ensures
        arguments.deep_view() == app_server_command(cjs@, workspace_path@),
{
    let arguments: Vec<String> = vec![
        cjs.to_owned(),
        "app-server".to_owned(),
        "--stdio".to_owned(),
        "--cwd".to_owned(),
        workspace_path.to_owned(),
    ];
    assert(arguments.deep_view() =~= app_server_command(cjs@, workspace_path@));
    arguments
}

/// Consecutive startup or protocol failures tolerated before the warm bridge
/// is abandoned for the rest of the thread.
pub const ZCODE_WARM_MAX_CONSECUTIVE_FAILURES: u32 = 2;

/// How long a request waits for its answer, in seconds.
pub const REQUEST_TIMEOUT_SECS: u64 = 120;

/// The error that a `turn.completed` of a given `resultType` stands for.
///
/// Budget stops and cancellations are deterministic: sending the same prompt
/// again cannot succeed differently. Failures during execution are often
/// transient, and unknown values are treated alike.
pub open spec fn completed_turn_error(result_type: Seq<char>) -> Option<ApiErrorModel> {
    if result_type == "success"@ {
        None
    } else if result_type == "cancelled"@ {
        Some(ApiErrorModel::InvalidRequest { message: "ZCode warm turn was cancelled"@ })
    } else if result_type == "error_max_turns"@ {
        Some(
            ApiErrorModel::InvalidRequest {
                message: "ZCode warm turn stopped: max turns exhausted"@,
            },
        )
    } else if result_type == "error_max_budget"@ {
        Some(
            ApiErrorModel::InvalidRequest {
                message: "ZCode warm turn stopped: turn budget exhausted"@,
            },
        )
    } else if result_type == "error_max_tool_calls"@ {
        Some(
            ApiErrorModel::InvalidRequest {
                message: "ZCode warm turn stopped: max tool calls exhausted"@,
            },
        )
    } else if result_type == "error_during_execution"@ {
        Some(ApiErrorModel::Stream("ZCode warm turn failed during execution"@))
    } else {
        Some(ApiErrorModel::Stream("ZCode warm turn ended with unknown resultType "@ + result_type))
    }
}

/// Classifies the `resultType` carried by a `turn.completed` payload into the
/// error the host should act on, or `None` when the turn finished normally.
pub fn zcode_completed_turn_error(result_type: &str) -> (error: Option<ApiError>)
    ensures
        error.deep_view() == completed_turn_error(result_type@),
{
    if str_eq(result_type, "success") {
        None
    } else if str_eq(result_type, "cancelled") {
        Some(ApiError::InvalidRequest { message: "ZCode warm turn was cancelled".to_owned() })
    } else if str_eq(result_type, "error_max_turns") {
        Some(
            ApiError::InvalidRequest {
                message: "ZCode warm turn stopped: max turns exhausted".to_owned(),
            },
        )
    } else if str_eq(result_type, "error_max_budget") {
        Some(
            ApiError::InvalidRequest {
                message: "ZCode warm turn stopped: turn budget exhausted".to_owned(),
            },
        )
    } else if str_eq(result_type, "error_max_tool_calls") {
        Some(
            ApiError::InvalidRequest {
                message: "ZCode warm turn stopped: max tool calls exhausted".to_owned(),
            },
        )
    } else if str_eq(result_type, "error_during_execution") {
        Some(ApiError::Stream("ZCode warm turn failed during execution".to_owned()))
    } else {
        Some(
            ApiError::Stream(
                "ZCode warm turn ended with unknown resultType ".to_owned().concat(result_type),
            ),
        )
    }
}

/// A count in what may be a usage object; anything unreadable counts nothing.
pub open spec fn usage_field(usage: Option<JsonModel>, name: Seq<char>) -> i64 {
    match json::get_in(usage, name) {
        Some(value) => match value.as_i64() {
            Some(count) => count,
            None => 0,
        },
        None => 0,
    }
}

/// The token counts that a `turn.completed` payload reports.
pub open spec fn turn_usage(payload: JsonModel) -> TokenUsage {
    let usage = payload.get("usage"@);
    TokenUsage {
        input_tokens: usage_field(usage, "inputTokens"@),
        cached_input_tokens: usage_field(usage, "cacheReadTokens"@),
        cache_write_input_tokens: usage_field(usage, "cacheWriteTokens"@),
        output_tokens: usage_field(usage, "outputTokens"@),
        reasoning_output_tokens: usage_field(usage, "reasoningTokens"@),
        total_tokens: usage_field(usage, "totalTokens"@),
    }
}

fn usage_count(usage: Option<&Json>, name: &str) -> (count: i64)
    ensures
        count == usage_field(usage.deep_view(), name@),
{
    match json::json_at(usage, name) {
        Some(value) => match value.as_i64() {
            Some(count) => count,
            None => 0,
        },
        None => 0,
    }
}

/// The token counts that a `turn.completed` payload reports.
pub fn token_usage_from_turn_payload(payload: &Json) -> (tokens: TokenUsage)
    ensures
        tokens == turn_usage(payload@),
{
    let usage = payload.get("usage");
    TokenUsage {
        input_tokens: usage_count(usage, "inputTokens"),
        cached_input_tokens: usage_count(usage, "cacheReadTokens"),
        cache_write_input_tokens: usage_count(usage, "cacheWriteTokens"),
        output_tokens: usage_count(usage, "outputTokens"),
        reasoning_output_tokens: usage_count(usage, "reasoningTokens"),
        total_tokens: usage_count(usage, "totalTokens"),
    }
}

/// The object of a failure payload that describes the failure.
pub open spec fn failure_detail(payload: JsonModel) -> Option<JsonModel> {
    match payload.get("error"@) {
        Some(error) => Some(error),
        None => payload.get("lastError"@),
    }
}

/// What a failure payload says went wrong: the message, and the error code
/// behind it unless the message names the code itself.
pub open spec fn failure_message(payload: JsonModel) -> Option<Seq<char>> {
    match str_in_detail(payload, "message"@) {
        Some(message) => match str_in_detail(payload, "code"@) {
            Some(code) => if text::first_index(message, code) is Some {
                Some(message)
            } else {
                Some(message + " ("@ + code + ")"@)
            },
            None => Some(message),
        },
        None => None,
    }
}

/// A string of the object that describes a failure.
pub open spec fn str_in_detail(payload: JsonModel, key: Seq<char>) -> Option<Seq<char>> {
    json::str_in(failure_detail(payload), key)
}

/// What a failure payload says went wrong, if it says so.
pub fn zcode_failure_message(payload: &Json) -> (message: Option<String>)
    ensures
        message.deep_view() == failure_message(payload@),
{
    let detail = match payload.get("error") {
        Some(error) => Some(error),
        None => payload.get("lastError"),
    };
    match text_at(detail, "message") {
        Some(message) => match text_at(detail, "code") {
            Some(code) => if contains(message, code) {
                Some(message.to_owned())
            } else {
                Some(message.to_owned().concat(" (").concat(code).concat(")"))
            },
            None => Some(message.to_owned()),
        },
        None => None,
    }
}

/// What a collector that waits for the next session event is handed.
#[derive(Debug)]
pub enum CollectorInput {
    /// The params of one `session/event` notification.
    Notification(Json),
    /// The collector fell behind and events were skipped.
    Lagged,
    /// The event stream is closed.
    Closed,
    /// No event arrived within the idle window.
    Elapsed,
}

/// What a collector is handed, over models.
pub enum InputModel {
    Notification(JsonModel),
    Lagged,
    Closed,
    Elapsed,
}

impl DeepView for CollectorInput {
    type V = InputModel;

    open spec fn deep_view(&self) -> InputModel {
        match self {
            CollectorInput::Notification(notification) => InputModel::Notification(notification@),
            CollectorInput::Lagged => InputModel::Lagged,
            CollectorInput::Closed => InputModel::Closed,
            CollectorInput::Elapsed => InputModel::Elapsed,
        }
    }
}

/// What a collector asks for. The actions of one step are performed in order,
/// and a collector whose consumer is gone performs no further ones.
#[derive(Debug, PartialEq)]
pub enum CollectorAction {
    /// Send an event; when the consumer is gone, stop the server-side turn and
    /// end.
    EmitOrStop(ResponseEvent),
    /// Send an event; when the consumer is gone, end.
    EmitOrEnd(ResponseEvent),
    /// Send an event, whether or not a consumer is left.
    Emit(ResponseEvent),
    /// Send an error, whether or not a consumer is left.
    Fail(ApiError),
    /// Count a failure of the bridge and kill its child for this reason.
    Kill(String),
    /// Ask the core to stop the turn, and do not wait for success.
    StopTurn,
    /// Send a request to the core, and do not depend on its outcome.
    Request { method: String, params: Json },
}

/// What a collector asks for, over models.
pub enum ActionModel {
    EmitOrStop(EventModel),
    EmitOrEnd(EventModel),
    Emit(EventModel),
    Fail(ApiErrorModel),
    Kill(Seq<char>),
    StopTurn,
    Request { method: Seq<char>, params: JsonModel },
}

impl DeepView for CollectorAction {
    type V = ActionModel;

    open spec fn deep_view(&self) -> ActionModel {
        match self {
            CollectorAction::EmitOrStop(event) => ActionModel::EmitOrStop(event.deep_view()),
            CollectorAction::EmitOrEnd(event) => ActionModel::EmitOrEnd(event.deep_view()),
            CollectorAction::Emit(event) => ActionModel::Emit(event.deep_view()),
            CollectorAction::Fail(error) => ActionModel::Fail(error.deep_view()),
            CollectorAction::Kill(reason) => ActionModel::Kill(reason@),
            CollectorAction::StopTurn => ActionModel::StopTurn,
            CollectorAction::Request { method, params } => ActionModel::Request {
                method: method@,
                params: params@,
            },
        }
    }
}

/// Adds one more action.
pub(crate) fn act(actions: &mut Vec<CollectorAction>, action: CollectorAction)
    ensures
        final(actions).deep_view() == old(actions).deep_view().push(action.deep_view()),
{
    let ghost before = actions.deep_view();
    actions.push(action);
    assert(actions.deep_view() =~= before.push(action.deep_view()));
}

/// No action.
pub(crate) fn no_actions() -> (actions: Vec<CollectorAction>)
    ensures
        actions.deep_view() == Seq::<ActionModel>::empty(),
{
    let actions: Vec<CollectorAction> = Vec::new();
    assert(actions.deep_view() =~= Seq::<ActionModel>::empty());
    actions
}

/// How far the output of the current turn has been streamed.
pub struct StreamModel {
    /// The text streamed so far.
    pub reply: Seq<char>,
    /// Whether the output item has been announced.
    pub started: bool,
    /// The tool names announced so far.
    pub names: Map<Seq<char>, Seq<char>>,
}

/// How far the output of the current turn has been streamed.
#[derive(Debug)]
pub struct StreamState {
    reply: String,
    started: bool,
    names: ToolNames,
}

impl View for StreamState {
    type V = StreamModel;

    closed spec fn view(&self) -> StreamModel {
        StreamModel { reply: self.reply@, started: self.started, names: self.names@ }
    }
}

/// Nothing streamed yet.
pub open spec fn stream_start() -> StreamModel {
    StreamModel { reply: Seq::empty(), started: false, names: Map::empty() }
}

/// The text that a `model.streaming` notification adds to the output.
pub open spec fn text_delta(notification: JsonModel) -> Seq<char> {
    let payload = notification.get("payload"@);
    match json::str_in(payload, "delta"@) {
        Some(delta) => if json::str_in(payload, "kind"@) == Some("text_delta"@) {
            delta
        } else {
            Seq::empty()
        },
        None => Seq::empty(),
    }
}

/// The stream after a `model.streaming` notification.
pub open spec fn stream_after_delta(stream: StreamModel, delta: Seq<char>) -> StreamModel {
    if delta.len() == 0 {
        stream
    } else {
        StreamModel { reply: stream.reply + delta, started: true, names: stream.names }
    }
}

/// What a delta makes the collector send: the announcement of the output item
/// if it is the first one, and the delta.
pub open spec fn delta_actions(stream: StreamModel, delta: Seq<char>) -> Seq<ActionModel> {
    let sent = ActionModel::EmitOrStop(EventModel::OutputTextDelta(delta));
    if delta.len() == 0 {
        Seq::empty()
    } else if stream.started {
        seq![sent]
    } else {
        seq![
            ActionModel::EmitOrStop(EventModel::OutputItemAdded(assistant_model(Seq::empty()))),
            sent,
        ]
    }
}

/// The stream after a tool-call notification.
pub open spec fn stream_after_tool(stream: StreamModel, notification: JsonModel) -> StreamModel {
    StreamModel { names: zcode_warm_events::names_after(notification, stream.names), ..stream }
}

/// What a tool-call notification makes the collector send.
pub open spec fn tool_actions(stream: StreamModel, notification: JsonModel) -> Seq<ActionModel> {
    match zcode_warm_events::activity_of(notification, stream.names) {
        Some(activity) => seq![ActionModel::EmitOrStop(EventModel::BridgeToolActivity(activity))],
        None => Seq::empty(),
    }
}

/// Whether an event type is one of a tool call.
pub open spec fn tool_event(event_type: Option<Seq<char>>) -> bool {
    ||| event_type == Some("tool_call_scheduled"@)
    ||| event_type == Some("tool_call_result"@)
    ||| event_type == Some("tool_call_error"@)
}

/// Whether an event type is one of a tool call.
pub(crate) fn is_tool_event(event_type: Option<&str>) -> (tool: bool)
    ensures
        tool == tool_event(event_type.deep_view()),
{
    text::opt_str_is(event_type, "tool_call_scheduled") || text::opt_str_is(
        event_type,
        "tool_call_result",
    ) || text::opt_str_is(event_type, "tool_call_error")
}

impl StreamState {
    /// Nothing streamed yet.
    pub(crate) fn new() -> (stream: StreamState)
        ensures
            stream@ == stream_start(),
    {
        StreamState { reply: String::new(), started: false, names: ToolNames::new() }
    }

    /// Takes in a `model.streaming` notification.
    pub(crate) fn take_delta(&mut self, notification: &Json) -> (actions: Vec<CollectorAction>)
        ensures
            final(self)@ == stream_after_delta(old(self)@, text_delta(notification@)),
            actions.deep_view() == delta_actions(old(self)@, text_delta(notification@)),
    {
        let mut actions = no_actions();
        let payload = notification.get("payload");
        let delta = match text_at(payload, "delta") {
            Some(delta) => delta,
            None => return actions,
        };
        if !text::opt_str_is(text_at(payload, "kind"), "text_delta") || delta.is_empty() {
            return actions;
        }
        if !self.started {
            self.started = true;
            act(
                &mut actions,
                CollectorAction::EmitOrStop(
                    ResponseEvent::OutputItemAdded(assistant_message(String::new())),
                ),
            );
        }
        self.reply.append(delta);
        act(
            &mut actions,
            CollectorAction::EmitOrStop(ResponseEvent::OutputTextDelta(delta.to_owned())),
        );
        assert(actions.deep_view() =~= delta_actions(old(self)@, text_delta(notification@)));
        actions
    }

    /// Takes in a tool-call notification. Tool activity is display-only: it is
    /// never handed on as an item the host would run.
    pub(crate) fn take_tool_event(&mut self, notification: &Json) -> (actions: Vec<CollectorAction>)
        ensures
            final(self)@ == stream_after_tool(old(self)@, notification@),
            actions.deep_view() == tool_actions(old(self)@, notification@),
    {
        let mut actions = no_actions();
        if let Some(activity) = bridge_tool_activity_from_notification(
            notification,
            &mut self.names,
        ) {
            act(
                &mut actions,
                CollectorAction::EmitOrStop(ResponseEvent::BridgeToolActivity(activity)),
            );
        }
        assert(actions.deep_view() =~= tool_actions(old(self)@, notification@));
        actions
    }

    /// The reply of a completed turn: the streamed text, or the final response
    /// for a turn whose deltas never arrived. Nothing counts as streamed
    /// afterwards; the tool names stay.
    pub(crate) fn take_reply(&mut self, payload: &Json) -> (reply: String)
        ensures
            reply@ == turn_reply(old(self)@, payload@),
            final(self)@ == (StreamModel { names: old(self)@.names, ..stream_start() }),
    {
        let mut reply = String::new();
        std::mem::swap(&mut reply, &mut self.reply);
        self.started = false;
        if reply.as_str().is_empty() {
            match payload.str_at("response") {
                Some(response) => response.to_owned(),
                None => String::new(),
            }
        } else {
            reply
        }
    }
}

/// The reply of a completed turn: the streamed text, or the final response for
/// a turn whose deltas never arrived.
pub open spec fn turn_reply(stream: StreamModel, payload: JsonModel) -> Seq<char> {
    if stream.reply.len() > 0 {
        stream.reply
    } else {
        match payload.str_at("response"@) {
            Some(response) => response,
            None => Seq::empty(),
        }
    }
}

/// The payload of a notification; one without payload carries null.
pub open spec fn payload_of(notification: JsonModel) -> JsonModel {
    match notification.get("payload"@) {
        Some(payload) => payload,
        None => JsonModel::Null,
    }
}

/// The payload of a notification; one without payload carries null.
pub(crate) fn payload_or_null(notification: &Json) -> (payload: Json)
    ensures
        payload@ == payload_of(notification@),
{
    match notification.get("payload") {
        Some(payload) => payload.clone(),
        None => Json::Null,
    }
}

/// The `resultType` of a `turn.completed` payload; a missing one is a success.
pub open spec fn result_type_of(payload: JsonModel) -> Seq<char> {
    match payload.str_at("resultType"@) {
        Some(result_type) => result_type,
        None => "success"@,
    }
}

/// The error that a `turn.failed` payload stands for: what it says went wrong,
/// or the whole payload when it does not say.
pub open spec fn failed_turn_error(payload: JsonModel) -> ApiErrorModel {
    match failure_message(payload) {
        Some(message) => ApiErrorModel::Stream(message),
        None => ApiErrorModel::Stream(json::json_text(payload)),
    }
}

/// The error that a `turn.failed` payload stands for.
pub(crate) fn turn_failure(payload: &Json) -> (error: ApiError)
    ensures
        error.deep_view() == failed_turn_error(payload@),
{
    match zcode_failure_message(payload) {
        Some(message) => ApiError::Stream(message),
        None => ApiError::Stream(payload.render()),
    }
}

/// The classification of a completed turn by its payload.
pub(crate) fn turn_verdict(payload: &Json) -> (error: Option<ApiError>)
    ensures
        error.deep_view() == completed_turn_error(result_type_of(payload@)),
{
    match payload.str_at("resultType") {
        Some(result_type) => zcode_completed_turn_error(result_type),
        None => zcode_completed_turn_error("success"),
    }
}

/// The params of a `session/stop`.
pub open spec fn stop_model(session_id: Seq<char>) -> JsonModel {
    json::object_model().with("sessionId"@, JsonModel::Str(session_id))
}

/// The params of a `session/stop`.
pub fn stop_params(session_id: &str) -> (params: Json)
    ensures
        params@ == stop_model(session_id@),
{
    Json::object().with("sessionId", Json::text(session_id))
}

/// The state of the collector of one turn.
pub struct TurnModel {
    pub session_id: Seq<char>,
    pub request_id: Seq<char>,
    pub stream: StreamModel,
    pub ended: bool,
}

/// Collects the session events of one turn and turns them into the events of
/// the response stream.
#[derive(Debug)]
pub struct TurnCollector {
    session_id: String,
    request_id: String,
    stream: StreamState,
    ended: bool,
}

impl View for TurnCollector {
    type V = TurnModel;

    closed spec fn view(&self) -> TurnModel {
        TurnModel {
            session_id: self.session_id@,
            request_id: self.request_id@,
            stream: self.stream@,
            ended: self.ended,
        }
    }
}

/// A turn of which no event has arrived yet.
pub open spec fn turn_start(session_id: Seq<char>, request_id: Seq<char>) -> TurnModel {
    TurnModel { session_id, request_id, stream: stream_start(), ended: false }
}

/// The state of a turn after one input.
pub open spec fn turn_after(turn: TurnModel, input: InputModel) -> TurnModel {
    match input {
        InputModel::Lagged => turn,
        InputModel::Closed => TurnModel { ended: true, ..turn },
        InputModel::Elapsed => TurnModel { ended: true, ..turn },
        InputModel::Notification(notification) => {
            let event_type = notification.str_at("type"@);
            if notification.str_at("sessionId"@) != Some(turn.session_id) {
                turn
            } else if event_type == Some("model.streaming"@) {
                TurnModel {
                    stream: stream_after_delta(turn.stream, text_delta(notification)),
                    ..turn
                }
            } else if tool_event(event_type) {
                TurnModel { stream: stream_after_tool(turn.stream, notification), ..turn }
            } else if event_type == Some("turn.failed"@) {
                TurnModel { ended: true, ..turn }
            } else if event_type == Some("turn.completed"@) {
                TurnModel {
                    stream: StreamModel { names: turn.stream.names, ..stream_start() },
                    ended: true,
                    ..turn
                }
            } else {
                turn
            }
        },
    }
}

/// What the completion of a turn makes the collector send: the reply, where
/// there is one, and then how the turn ended.
pub open spec fn completion_actions(turn: TurnModel, payload: JsonModel) -> Seq<ActionModel> {
    let reply = turn_reply(turn.stream, payload);
    let done = if reply.len() > 0 {
        seq![ActionModel::EmitOrEnd(EventModel::OutputItemDone(assistant_model(reply)))]
    } else {
        Seq::empty()
    };
    match completed_turn_error(result_type_of(payload)) {
        Some(error) => done.push(ActionModel::Fail(error)),
        None => done.push(
            ActionModel::Emit(
                EventModel::Completed {
                    response_id: turn.request_id,
                    token_usage: Some(turn_usage(payload)),
                    end_turn: Some(true),
                },
            ),
        ),
    }
}

/// What one input makes the collector of a turn do.
pub open spec fn turn_actions(turn: TurnModel, input: InputModel) -> Seq<ActionModel> {
    match input {
        InputModel::Lagged => Seq::empty(),
        InputModel::Closed => seq![
            ActionModel::Fail(
                ApiErrorModel::Stream("ZCode warm app-server event stream closed"@),
            ),
        ],
        InputModel::Elapsed => seq![
            ActionModel::Kill("turn events stalled"@),
            ActionModel::Fail(
                ApiErrorModel::Stream(
                    "ZCode warm turn stalled: no session events before the idle window elapsed"@,
                ),
            ),
        ],
        InputModel::Notification(notification) => {
            let event_type = notification.str_at("type"@);
            if notification.str_at("sessionId"@) != Some(turn.session_id) {
                Seq::empty()
            } else if event_type == Some("model.streaming"@) {
                delta_actions(turn.stream, text_delta(notification))
            } else if tool_event(event_type) {
                tool_actions(turn.stream, notification)
            } else if event_type == Some("turn.failed"@) {
                seq![ActionModel::Fail(failed_turn_error(payload_of(notification)))]
            } else if event_type == Some("turn.completed"@) {
                completion_actions(turn, payload_of(notification))
            } else {
                Seq::empty()
            }
        },
    }
}

impl TurnCollector {
    /// A collector for a turn of `session_id` whose response is known as
    /// `request_id`.
    pub fn new(session_id: &str, request_id: &str) -> (collector: TurnCollector)
        ensures
            collector@ == turn_start(session_id@, request_id@),
    {
        TurnCollector {
            session_id: session_id.to_owned(),
            request_id: request_id.to_owned(),
            stream: StreamState::new(),
            ended: false,
        }
    }

    /// Whether the turn is over and no more input is looked at.
    pub fn is_ended(&self) -> (ended: bool)
        ensures
            ended == self@.ended,
    {
        self.ended
    }

    /// Takes in one input and says what to do about it.
    pub fn step(&mut self, input: CollectorInput) -> (actions: Vec<CollectorAction>)
        requires
            !old(self)@.ended,
        ensures
            final(self)@ == turn_after(old(self)@, input.deep_view()),
            actions.deep_view() == turn_actions(old(self)@, input.deep_view()),
    {
        let mut actions = no_actions();
        match input {
            CollectorInput::Lagged => {},
            CollectorInput::Closed => {
                self.ended = true;
                act(
                    &mut actions,
                    CollectorAction::Fail(
                        ApiError::Stream("ZCode warm app-server event stream closed".to_owned()),
                    ),
                );
            },
            CollectorInput::Elapsed => {
                self.ended = true;
                act(&mut actions, CollectorAction::Kill("turn events stalled".to_owned()));
                act(
                    &mut actions,
                    CollectorAction::Fail(
                        ApiError::Stream(
                            "ZCode warm turn stalled: no session events before the idle window elapsed".to_owned(),
                        ),
                    ),
                );
            },
            CollectorInput::Notification(notification) => {
                if !text::opt_str_is(notification.str_at("sessionId"), self.session_id.as_str()) {
                    return actions;
                }
                let event_type = notification.str_at("type");
                if text::opt_str_is(event_type, "model.streaming") {
                    return self.stream.take_delta(&notification);
                }
                if is_tool_event(event_type) {
                    return self.stream.take_tool_event(&notification);
                }
                if text::opt_str_is(event_type, "turn.failed") {
                    self.ended = true;
                    let payload = payload_or_null(&notification);
                    act(&mut actions, CollectorAction::Fail(turn_failure(&payload)));
                } else if text::opt_str_is(event_type, "turn.completed") {
                    self.ended = true;
                    let payload = payload_or_null(&notification);
                    self.complete(&payload, &mut actions);
                }
            },
        }
        assert(actions.deep_view() =~= turn_actions(old(self)@, input.deep_view()));
        actions
    }

    fn complete(&mut self, payload: &Json, actions: &mut Vec<CollectorAction>)
        requires
            old(actions).deep_view().len() == 0,
        ensures
            final(self)@ == (TurnModel {
                stream: StreamModel { names: old(self)@.stream.names, ..stream_start() },
                ..old(self)@
            }),
            final(actions).deep_view() == completion_actions(old(self)@, payload@),
    {
        let reply = self.stream.take_reply(payload);
        if !reply.as_str().is_empty() {
            act(
                actions,
                CollectorAction::EmitOrEnd(
                    ResponseEvent::OutputItemDone(assistant_message(reply)),
                ),
            );
        }
        match turn_verdict(payload) {
            Some(error) => act(actions, CollectorAction::Fail(error)),
            None => act(
                actions,
                CollectorAction::Emit(
                    ResponseEvent::Completed {
                        response_id: self.request_id.clone(),
                        token_usage: Some(token_usage_from_turn_payload(payload)),
                        end_turn: Some(true),
                    },
                ),
            ),
        }
        assert(actions.deep_view() =~= completion_actions(old(self)@, payload@));
    }
}

/// The state of a turn after several inputs. A turn that has ended looks at no
/// more of them.
pub open spec fn turn_run(turn: TurnModel, inputs: Seq<InputModel>) -> TurnModel
    decreases inputs.len(),
{
    if inputs.len() == 0 {
        turn
    } else {
        let before = turn_run(turn, inputs.drop_last());
        if before.ended {
            before
        } else {
            turn_after(before, inputs.last())
        }
    }
}

/// What several inputs make the collector of a turn do.
pub open spec fn turn_run_actions(turn: TurnModel, inputs: Seq<InputModel>) -> Seq<ActionModel>
    decreases inputs.len(),
{
    if inputs.len() == 0 {
        Seq::empty()
    } else {
        let before = turn_run(turn, inputs.drop_last());
        let actions = turn_run_actions(turn, inputs.drop_last());
        if before.ended {
            actions
        } else {
            actions + turn_actions(before, inputs.last())
        }
    }
}

/// The text that the deltas among some actions add up to.
pub open spec fn sent_text(actions: Seq<ActionModel>) -> Seq<char>
    decreases actions.len(),
{
    if actions.len() == 0 {
        Seq::empty()
    } else {
        match actions.last() {
            ActionModel::EmitOrStop(EventModel::OutputTextDelta(delta)) => sent_text(
                actions.drop_last(),
            ) + delta,
            _ => sent_text(actions.drop_last()),
        }
    }
}

/// How often the actions announce an output item.
pub open spec fn announcements(actions: Seq<ActionModel>) -> nat
    decreases actions.len(),
{
    if actions.len() == 0 {
        0
    } else {
        match actions.last() {
            ActionModel::EmitOrStop(EventModel::OutputItemAdded(_)) => announcements(
                actions.drop_last(),
            ) + 1,
            _ => announcements(actions.drop_last()),
        }
    }
}

proof fn lemma_sent_text_adds_up(first: Seq<ActionModel>, second: Seq<ActionModel>)
    ensures
        sent_text(first + second) == sent_text(first) + sent_text(second),
        announcements(first + second) == announcements(first) + announcements(second),
    decreases second.len(),
{
    if second.len() == 0 {
        assert(first + second =~= first);
        assert(sent_text(first) + sent_text(second) =~= sent_text(first));
    } else {
        lemma_sent_text_adds_up(first, second.drop_last());
        assert((first + second).drop_last() =~= first + second.drop_last());
        assert((first + second).last() == second.last());
        assert(sent_text(first + second) =~= sent_text(first) + sent_text(second));
    }
}

proof fn lemma_step_sends_its_delta(turn: TurnModel, input: InputModel)
    ensures
        !turn_after(turn, input).ended ==> turn_after(turn, input).stream.reply
            == turn.stream.reply + sent_text(turn_actions(turn, input)),
        !turn_after(turn, input).ended && (turn.stream.started <==> turn.stream.reply.len() > 0)
            ==> (turn_after(turn, input).stream.started <==> turn_after(
            turn,
            input,
        ).stream.reply.len() > 0),
        !turn_after(turn, input).ended ==> announcements(turn_actions(turn, input)) == (if turn_after(
            turn,
            input,
        ).stream.started && !turn.stream.started {
            1nat
        } else {
            0nat
        }),
{
    reveal_with_fuel(sent_text, 3);
    reveal_with_fuel(announcements, 3);
    let actions = turn_actions(turn, input);
    assert(turn.stream.reply + Seq::<char>::empty() =~= turn.stream.reply);
    if actions.len() == 1 {
        assert(actions.drop_last() =~= Seq::empty());
    } else if actions.len() == 2 {
        assert(actions.drop_last() =~= seq![actions[0]]);
        assert(actions.drop_last().drop_last() =~= Seq::empty());
    }
    match input {
        InputModel::Notification(notification) => {
            let delta = text_delta(notification);
            assert(Seq::<char>::empty() + delta =~= delta);
        },
        _ => {},
    }
}

/// While a turn runs, the deltas sent add up to the reply kept for its end,
/// and the output item has been announced exactly once if anything was sent.
/// When the turn completes, the finished item repeats exactly what was
/// streamed.
pub proof fn law_reply_is_what_was_streamed(
    session_id: Seq<char>,
    request_id: Seq<char>,
    inputs: Seq<InputModel>,
    payload: JsonModel,
)
    ensures
        ({
            let turn = turn_run(turn_start(session_id, request_id), inputs);
            let sent = turn_run_actions(turn_start(session_id, request_id), inputs);
            !turn.ended ==> {
                &&& sent_text(sent) == turn.stream.reply
                &&& announcements(sent) == (if sent_text(sent).len() > 0 {
                    1nat
                } else {
                    0nat
                })
                &&& sent_text(sent).len() > 0 ==> completion_actions(turn, payload)[0]
                    == ActionModel::EmitOrEnd(
                    EventModel::OutputItemDone(assistant_model(sent_text(sent))),
                )
            }
        }),
{
    let start = turn_start(session_id, request_id);
    lemma_streamed_so_far(start, inputs);
    let turn = turn_run(start, inputs);
    if !turn.ended && turn.stream.reply.len() > 0 {
        let done = seq![
            ActionModel::EmitOrEnd(
                EventModel::OutputItemDone(assistant_model(turn_reply(turn.stream, payload))),
            ),
        ];
        assert(completion_actions(turn, payload)[0] == done[0]);
    }
}

proof fn lemma_streamed_so_far(start: TurnModel, inputs: Seq<InputModel>)
    requires
        start.stream == stream_start(),
        !start.ended,
    ensures
        ({
            let turn = turn_run(start, inputs);
            let sent = turn_run_actions(start, inputs);
            !turn.ended ==> {
                &&& sent_text(sent) == turn.stream.reply
                &&& turn.stream.started <==> turn.stream.reply.len() > 0
                &&& announcements(sent) == (if turn.stream.started {
                    1nat
                } else {
                    0nat
                })
            }
        }),
    decreases inputs.len(),
{
    if inputs.len() > 0 {
        lemma_streamed_so_far(start, inputs.drop_last());
        let before = turn_run(start, inputs.drop_last());
        lemma_step_sends_its_delta(before, inputs.last());
        lemma_sent_text_adds_up(
            turn_run_actions(start, inputs.drop_last()),
            turn_actions(before, inputs.last()),
        );
    }
}

/// Whether an action hands the host a function call to run.
pub open spec fn hands_over_call(action: ActionModel) -> bool {
    match action {
        ActionModel::EmitOrStop(event) => event_holds_call(event),
        ActionModel::EmitOrEnd(event) => event_holds_call(event),
        ActionModel::Emit(event) => event_holds_call(event),
        _ => false,
    }
}

/// Whether an event carries a function call.
pub open spec fn event_holds_call(event: EventModel) -> bool {
    match event {
        EventModel::OutputItemAdded(item) => item is FunctionCall,
        EventModel::OutputItemDone(item) => item is FunctionCall,
        _ => false,
    }
}

/// The tool calls of the core never reach the host as function calls, which it
/// would run again: no step of a turn hands one over.
pub proof fn law_tool_calls_stay_display_only(turn: TurnModel, input: InputModel, i: int)
    requires
        0 <= i < turn_actions(turn, input).len(),
    ensures
        !hands_over_call(turn_actions(turn, input)[i]),
{
}

/// Whether an action says how a turn ended.
pub open spec fn terminal(action: ActionModel) -> bool {
    action is Fail || (action is Emit && action->Emit_0 is Completed)
}

/// A turn ends with the step that says how it ended, and says so once, last.
pub proof fn law_turn_says_how_it_ended(turn: TurnModel, input: InputModel)
    requires
        !turn.ended,
    ensures
        turn_after(turn, input).ended <==> turn_actions(turn, input).len() > 0 && terminal(
            turn_actions(turn, input).last(),
        ),
        forall|i: int|
            0 <= i < turn_actions(turn, input).len() - 1 ==> !terminal(
                #[trigger] turn_actions(turn, input)[i],
            ),
{
}

/// Events of other sessions neither change a turn nor reach its stream.
pub proof fn law_foreign_events_are_ignored(turn: TurnModel, notification: JsonModel)
    requires
        notification.str_at("sessionId"@) != Some(turn.session_id),
    ensures
        turn_after(turn, InputModel::Notification(notification)) == turn,
        turn_actions(turn, InputModel::Notification(notification)) == Seq::<ActionModel>::empty(),
{
}

/// Whether a `resultType` names a deterministic stop: a cancellation or an
/// exhausted budget.
pub open spec fn deterministic_stop(result_type: Seq<char>) -> bool {
    ||| result_type == "cancelled"@
    ||| result_type == "error_max_turns"@
    ||| result_type == "error_max_budget"@
    ||| result_type == "error_max_tool_calls"@
}

/// A turn that stopped deterministically is not sent again; every other turn
/// that did not succeed may be, also one that ended in a way not known yet.
pub proof fn law_only_deterministic_stops_are_final(result_type: Seq<char>)
    ensures
        completed_turn_error(result_type) is None <==> result_type == "success"@,
        completed_turn_error(result_type) matches Some(error) ==> (error.retryable()
            <==> !deterministic_stop(result_type)),
{
    reveal_strlit("success");
    reveal_strlit("cancelled");
    reveal_strlit("error_max_turns");
    reveal_strlit("error_max_budget");
    reveal_strlit("error_max_tool_calls");
    reveal_strlit("error_during_execution");
    assert("cancelled"@[0] != "success"@[0]);
    assert("error_max_turns"@[0] != "success"@[0]);
    assert("error_max_budget"@[0] != "success"@[0]);
    assert("error_max_tool_calls"@[0] != "success"@[0]);
    assert("cancelled"@[0] != "error_during_execution"@[0]);
    assert("error_max_turns"@[6] != "error_during_execution"@[6]);
    assert("error_max_budget"@[6] != "error_during_execution"@[6]);
    assert("error_max_tool_calls"@[6] != "error_during_execution"@[6]);
}

/// Whether an input is a text delta of a session, by the members of its
/// notification.
pub open spec fn streams_text(
    session_id: Seq<char>,
    input: InputModel,
    delta: Seq<char>,
) -> bool {
    &&& input is Notification
    &&& ({
        let notification = input->Notification_0;
        &&& notification.str_at("sessionId"@) == Some(session_id)
        &&& notification.str_at("type"@) == Some("model.streaming"@)
        &&& notification.get("payload"@) is Some
        &&& notification.get("payload"@)->0.str_at("kind"@) == Some("text_delta"@)
        &&& notification.get("payload"@)->0.str_at("delta"@) == Some(delta)
    })
}

/// Whether `piece` is what an input adds to the text: its delta, or nothing
/// where it is no text delta of the session.
pub open spec fn adds_piece(session_id: Seq<char>, input: InputModel, piece: Seq<char>) -> bool {
    ||| streams_text(session_id, input, piece)
    ||| piece.len() == 0 && forall|delta: Seq<char>|
        !(#[trigger] streams_text(session_id, input, delta))
}

/// Some texts, one right after the other.
pub open spec fn run_together(pieces: Seq<Seq<char>>) -> Seq<char>
    decreases pieces.len(),
{
    if pieces.len() == 0 {
        Seq::empty()
    } else {
        run_together(pieces.drop_last()) + pieces.last()
    }
}

proof fn lemma_reply_is_the_pieces(
    turn: TurnModel,
    inputs: Seq<InputModel>,
    pieces: Seq<Seq<char>>,
)
    requires
        turn.stream == stream_start(),
        !turn.ended,
        pieces.len() == inputs.len(),
        forall|i: int|
            0 <= i < inputs.len() ==> adds_piece(turn.session_id, inputs[i], #[trigger] pieces[i]),
    ensures
        turn_run(turn, inputs).session_id == turn.session_id,
        !turn_run(turn, inputs).ended ==> turn_run(turn, inputs).stream.reply == run_together(
            pieces,
        ),
    decreases inputs.len(),
{
    if inputs.len() > 0 {
        let first = pieces.drop_last();
        assert forall|i: int| 0 <= i < inputs.drop_last().len() implies adds_piece(
            turn.session_id,
            inputs.drop_last()[i],
            #[trigger] first[i],
        ) by {
            assert(adds_piece(turn.session_id, inputs[i], pieces[i]));
        }
        lemma_reply_is_the_pieces(turn, inputs.drop_last(), first);
        let before = turn_run(turn, inputs.drop_last());
        let piece = pieces[pieces.len() - 1];
        assert(adds_piece(turn.session_id, inputs[inputs.len() - 1], piece));
        let input = inputs.last();
        let after = turn_after(before, input);
        if piece.len() == 0 {
            assert(before.stream.reply + piece =~= before.stream.reply);
        }
        if streams_text(turn.session_id, input, piece) {
            assert(text_delta(input->Notification_0) == piece);
            assert(after.stream.reply == before.stream.reply + piece);
        } else {
            match input {
                InputModel::Notification(notification) => {
                    if let Some(delta) = json::str_in(notification.get("payload"@), "delta"@) {
                        assert(!streams_text(turn.session_id, input, delta));
                    }
                },
                _ => {},
            }
            assert(!after.ended ==> after.stream.reply == before.stream.reply);
        }
    }
}

/// While a turn runs, the text sent so far, and the reply kept for its end, is
/// the text of the session's deltas, one right after the other and character
/// for character, white space too. `pieces` is what each input adds.
pub proof fn law_streamed_text_is_the_deltas(
    session_id: Seq<char>,
    request_id: Seq<char>,
    inputs: Seq<InputModel>,
    pieces: Seq<Seq<char>>,
)
    requires
        pieces.len() == inputs.len(),
        forall|i: int|
            0 <= i < inputs.len() ==> adds_piece(session_id, inputs[i], #[trigger] pieces[i]),
    ensures
        ({
            let turn = turn_run(turn_start(session_id, request_id), inputs);
            let sent = turn_run_actions(turn_start(session_id, request_id), inputs);
            !turn.ended ==> {
                &&& sent_text(sent) == run_together(pieces)
                &&& turn.stream.reply == run_together(pieces)
            }
        }),
{
    let start = turn_start(session_id, request_id);
    lemma_reply_is_the_pieces(start, inputs, pieces);
    lemma_streamed_so_far(start, inputs);
}

/// A delta that says something is handed on as it came, behind the announcement
/// of an empty assistant message if it is the first one; the turn goes on.
pub proof fn law_a_delta_is_handed_on_as_it_came(
    turn: TurnModel,
    input: InputModel,
    delta: Seq<char>,
)
    requires
        streams_text(turn.session_id, input, delta),
        delta.len() > 0,
    ensures
        ({
            let actions = turn_actions(turn, input);
            let n = actions.len() as int;
            &&& n == if turn.stream.started {
                1int
            } else {
                2int
            }
            &&& actions[n - 1] == ActionModel::EmitOrStop(EventModel::OutputTextDelta(delta))
            &&& !turn.stream.started ==> actions[0] == ActionModel::EmitOrStop(
                EventModel::OutputItemAdded(assistant_model(Seq::empty())),
            )
            &&& turn_after(turn, input).stream.started
            &&& turn_after(turn, input).stream.reply == turn.stream.reply + delta
            &&& turn_after(turn, input).stream.names == turn.stream.names
            &&& turn_after(turn, input).ended == turn.ended
        }),
{
}

/// Whether an input is a notification of the session with one of the types that
/// tell of tool calls.
pub open spec fn tells_of_tool(session_id: Seq<char>, input: InputModel) -> bool {
    &&& input is Notification
    &&& input->Notification_0.str_at("sessionId"@) == Some(session_id)
    &&& ({
        let event_type = input->Notification_0.str_at("type"@);
        ||| event_type == Some("tool_call_scheduled"@)
        ||| event_type == Some("tool_call_result"@)
        ||| event_type == Some("tool_call_error"@)
    })
}

/// A tool call of the session is handed on as the activity it carries, and as
/// nothing where it carries none; it neither ends the turn nor touches its
/// text.
pub proof fn law_tool_calls_become_activity(turn: TurnModel, input: InputModel)
    requires
        tells_of_tool(turn.session_id, input),
    ensures
        ({
            let activity = zcode_warm_events::activity_of(
                input->Notification_0,
                turn.stream.names,
            );
            let actions = turn_actions(turn, input);
            let after = turn_after(turn, input);
            &&& activity is Some ==> actions.len() == 1 && actions[0] == ActionModel::EmitOrStop(
                EventModel::BridgeToolActivity(activity->0),
            )
            &&& activity is None ==> actions.len() == 0
            &&& after.ended == turn.ended
            &&& after.stream.reply == turn.stream.reply
            &&& after.stream.started == turn.stream.started
            &&& after.stream.names == zcode_warm_events::names_after(
                input->Notification_0,
                turn.stream.names,
            )
        }),
{
    crate::zcode_warm_goal::lemma_event_types_differ();
    reveal_strlit("model.streaming");
    reveal_strlit("tool_call_scheduled");
    reveal_strlit("tool_call_result");
    reveal_strlit("tool_call_error");
    assert("model.streaming"@[0] != "tool_call_scheduled"@[0]);
    assert("model.streaming"@[0] != "tool_call_result"@[0]);
    assert("model.streaming"@[0] != "tool_call_error"@[0]);
}

/// Whether an input is a notification of the session with the given type and
/// payload; a missing payload counts as null.
pub open spec fn notifies(
    session_id: Seq<char>,
    input: InputModel,
    event_type: Seq<char>,
    payload: JsonModel,
) -> bool {
    &&& input is Notification
    &&& input->Notification_0.str_at("sessionId"@) == Some(session_id)
    &&& input->Notification_0.str_at("type"@) == Some(event_type)
    &&& match input->Notification_0.get("payload"@) {
        Some(held) => payload == held,
        None => payload is Null,
    }
}

/// A completed turn ends, says its whole reply once if there is one, and then
/// how it ended. The reply is the streamed text, or the payload's `response`
/// where nothing was streamed. A `resultType` that is missing, no text, or
/// `success` completes the response, under the turn's own id and with the
/// counts of the payload; any other is an error.
pub proof fn law_a_completed_turn_says_its_reply(
    turn: TurnModel,
    input: InputModel,
    payload: JsonModel,
    reply: Seq<char>,
)
    requires
        notifies(turn.session_id, input, "turn.completed"@, payload),
        turn.stream.reply.len() > 0 ==> reply == turn.stream.reply,
        turn.stream.reply.len() == 0 ==> (payload.str_at("response"@) == Some(reply) || (
        payload.str_at("response"@) is None && reply.len() == 0)),
    ensures
        ({
            let actions = turn_actions(turn, input);
            let n = actions.len() as int;
            let result_type = payload.str_at("resultType"@);
            &&& turn_after(turn, input).ended
            &&& n == if reply.len() > 0 {
                2int
            } else {
                1int
            }
            &&& reply.len() > 0 ==> actions[0] == ActionModel::EmitOrEnd(
                EventModel::OutputItemDone(assistant_model(reply)),
            )
            &&& (result_type is None || result_type == Some("success"@)) ==> actions[n - 1]
                == ActionModel::Emit(
                EventModel::Completed {
                    response_id: turn.request_id,
                    token_usage: Some(turn_usage(payload)),
                    end_turn: Some(true),
                },
            )
            &&& result_type is Some && result_type != Some("success"@) ==> actions[n - 1]
                == ActionModel::Fail(completed_turn_error(result_type->0)->0)
        }),
{
    crate::zcode_warm_goal::lemma_event_types_differ();
    if reply.len() == 0 {
        assert(reply =~= Seq::<char>::empty());
    }
    law_only_deterministic_stops_are_final(result_type_of(payload));
}

/// A failed turn ends with the one error that says what its payload says: a
/// message, with the code behind it in brackets unless the message names it, or
/// the whole payload where there is no message. What is said of `lastError`
/// counts where there is no `error`.
pub proof fn law_a_failed_turn_says_what_went_wrong(
    turn: TurnModel,
    input: InputModel,
    payload: JsonModel,
    detail: JsonModel,
)
    requires
        notifies(turn.session_id, input, "turn.failed"@, payload),
        payload.get("error"@) == Some(detail) || (payload.get("error"@) is None && payload.get(
            "lastError"@,
        ) == Some(detail)) || (payload.get("error"@) is None && payload.get("lastError"@) is None
            && detail is Null),
    ensures
        ({
            let actions = turn_actions(turn, input);
            let message = detail.str_at("message"@);
            let code = detail.str_at("code"@);
            &&& turn_after(turn, input).ended
            &&& actions.len() == 1
            &&& message is None ==> actions[0] == ActionModel::Fail(
                ApiErrorModel::Stream(json::json_text(payload)),
            )
            &&& message is Some && code is None ==> actions[0] == ActionModel::Fail(
                ApiErrorModel::Stream(message->0),
            )
            &&& message is Some && code is Some && text::first_index(message->0, code->0) is Some
                ==> actions[0] == ActionModel::Fail(ApiErrorModel::Stream(message->0))
            &&& message is Some && code is Some && text::first_index(message->0, code->0) is None
                ==> actions[0] == ActionModel::Fail(
                ApiErrorModel::Stream(message->0 + " ("@ + code->0 + ")"@),
            )
        }),
{
    crate::zcode_warm_goal::lemma_event_types_differ();
}

/// Any other notification of the session leaves the turn as it is: one that is
/// neither a text delta that says something, nor of a tool call, nor the end of
/// a turn. So does having fallen behind.
pub proof fn law_other_events_leave_a_turn_alone(turn: TurnModel, input: InputModel)
    requires
        input is Notification || input is Lagged,
        forall|delta: Seq<char>| #[trigger]
            streams_text(turn.session_id, input, delta) ==> delta.len() == 0,
        !tells_of_tool(turn.session_id, input),
        input is Notification ==> input->Notification_0.str_at("type"@) != Some("turn.failed"@)
            && input->Notification_0.str_at("type"@) != Some("turn.completed"@),
    ensures
        turn_after(turn, input) == turn,
        turn_actions(turn, input).len() == 0,
{
    match input {
        InputModel::Notification(notification) => {
            let payload = notification.get("payload"@);
            if let Some(delta) = json::str_in(payload, "delta"@) {
                assert(streams_text(turn.session_id, input, delta) ==> delta.len() == 0);
            }
        },
        _ => {},
    }
}

/// A closed event stream fails the turn; so does silence beyond the idle
/// window, which first gives the child up.
pub proof fn law_a_turn_does_not_wait_for_ever(turn: TurnModel)
    ensures
        turn_after(turn, InputModel::Closed).ended,
        turn_actions(turn, InputModel::Closed) == seq![
            ActionModel::Fail(
                ApiErrorModel::Stream("ZCode warm app-server event stream closed"@),
            ),
        ],
        turn_after(turn, InputModel::Elapsed).ended,
        turn_actions(turn, InputModel::Elapsed) == seq![
            ActionModel::Kill("turn events stalled"@),
            ActionModel::Fail(
                ApiErrorModel::Stream(
                    "ZCode warm turn stalled: no session events before the idle window elapsed"@,
                ),
            ),
        ],
{
}

/// Whether `count` is what a payload reports under a name of its usage: the
/// number that stands there, or zero where none does that fits.
pub open spec fn counts(payload: JsonModel, name: Seq<char>, count: i64) -> bool {
    let usage = payload.get("usage"@);
    if usage is Some && usage->0.get(name) is Some && usage->0.get(name)->0 is Int && i64::MIN
        <= usage->0.get(name)->0->Int_0 <= i64::MAX {
        count == usage->0.get(name)->0->Int_0
    } else {
        count == 0
    }
}

/// Each token count of a turn is the one that its payload reports under its own
/// name.
pub proof fn law_token_counts_are_those_reported(payload: JsonModel)
    ensures
        counts(payload, "inputTokens"@, turn_usage(payload).input_tokens),
        counts(payload, "cacheReadTokens"@, turn_usage(payload).cached_input_tokens),
        counts(payload, "cacheWriteTokens"@, turn_usage(payload).cache_write_input_tokens),
        counts(payload, "outputTokens"@, turn_usage(payload).output_tokens),
        counts(payload, "reasoningTokens"@, turn_usage(payload).reasoning_output_tokens),
        counts(payload, "totalTokens"@, turn_usage(payload).total_tokens),
{
}

/// Each way in which a turn can stop is told in its own words, and one that is
/// not known by its name.
pub proof fn law_stops_are_told_in_words(result_type: Seq<char>)
    ensures
        completed_turn_error("cancelled"@) == Some(
            ApiErrorModel::InvalidRequest { message: "ZCode warm turn was cancelled"@ },
        ),
        completed_turn_error("error_max_turns"@) == Some(
            ApiErrorModel::InvalidRequest {
                message: "ZCode warm turn stopped: max turns exhausted"@,
            },
        ),
        completed_turn_error("error_max_budget"@) == Some(
            ApiErrorModel::InvalidRequest {
                message: "ZCode warm turn stopped: turn budget exhausted"@,
            },
        ),
        completed_turn_error("error_max_tool_calls"@) == Some(
            ApiErrorModel::InvalidRequest {
                message: "ZCode warm turn stopped: max tool calls exhausted"@,
            },
        ),
        completed_turn_error("error_during_execution"@) == Some(
            ApiErrorModel::Stream("ZCode warm turn failed during execution"@),
        ),
        result_type != "success"@ && result_type != "error_during_execution"@
            && !deterministic_stop(result_type) ==> completed_turn_error(result_type) == Some(
            ApiErrorModel::Stream("ZCode warm turn ended with unknown resultType "@ + result_type),
        ),
{
    reveal_strlit("success");
    reveal_strlit("cancelled");
    reveal_strlit("error_max_turns");
    reveal_strlit("error_max_budget");
    reveal_strlit("error_max_tool_calls");
    reveal_strlit("error_during_execution");
    assert("cancelled"@[0] != "success"@[0]);
    assert("error_max_turns"@[0] != "success"@[0]);
    assert("error_max_turns"@[0] != "cancelled"@[0]);
    assert("error_max_budget"@[0] != "success"@[0]);
    assert("error_max_budget"@[0] != "cancelled"@[0]);
    assert("error_max_budget"@[10] != "error_max_turns"@[10]);
    assert("error_max_tool_calls"@[0] != "success"@[0]);
    assert("error_max_tool_calls"@[0] != "cancelled"@[0]);
    assert("error_max_tool_calls"@[11] != "error_max_turns"@[11]);
    assert("error_max_tool_calls"@[10] != "error_max_budget"@[10]);
    assert("error_during_execution"@[0] != "success"@[0]);
    assert("error_during_execution"@[0] != "cancelled"@[0]);
    assert("error_during_execution"@[6] != "error_max_turns"@[6]);
    assert("error_during_execution"@[6] != "error_max_budget"@[6]);
    assert("error_during_execution"@[6] != "error_max_tool_calls"@[6]);
}

/// A turn is stopped in its own session; a turn starts with nothing streamed;
/// the app-server runs in its workspace; the modes have their wire names.
pub proof fn law_a_turn_is_set_up_for_its_session(
    session_id: Seq<char>,
    request_id: Seq<char>,
    cjs: Seq<char>,
    workspace_path: Seq<char>,
    key: Seq<char>,
    inner: JsonModel,
)
    ensures
        json::has_member(stop_model(session_id), key, inner) <==> key == "sessionId"@ && inner
            == JsonModel::Str(session_id),
        turn_start(session_id, request_id).session_id == session_id,
        turn_start(session_id, request_id).request_id == request_id,
        !turn_start(session_id, request_id).ended,
        turn_start(session_id, request_id).stream.reply.len() == 0,
        !turn_start(session_id, request_id).stream.started,
        turn_start(session_id, request_id).stream.names == Map::<Seq<char>, Seq<char>>::empty(),
        app_server_command(cjs, workspace_path) == seq![
            cjs,
            "app-server"@,
            "--stdio"@,
            "--cwd"@,
            workspace_path,
        ],
        mode_name(WarmMode::Yolo) == "yolo"@,
        mode_name(WarmMode::Build) == "build"@,
{
}

/// An action and an input are modelled by all that they hold.
pub proof fn law_actions_are_modelled_by_what_they_hold(
    action: CollectorAction,
    input: CollectorInput,
)
    ensures
        match action {
            CollectorAction::EmitOrStop(event) => action.deep_view() == ActionModel::EmitOrStop(
                event.deep_view(),
            ),
            CollectorAction::EmitOrEnd(event) => action.deep_view() == ActionModel::EmitOrEnd(
                event.deep_view(),
            ),
            CollectorAction::Emit(event) => action.deep_view() == ActionModel::Emit(
                event.deep_view(),
            ),
            CollectorAction::Fail(error) => action.deep_view() == ActionModel::Fail(
                error.deep_view(),
            ),
            CollectorAction::Kill(reason) => action.deep_view() == ActionModel::Kill(reason@),
            CollectorAction::StopTurn => action.deep_view() is StopTurn,
            CollectorAction::Request { method, params } => action.deep_view() == (
            ActionModel::Request { method: method@, params: params@ }),
        },
        match input {
            CollectorInput::Notification(notification) => input.deep_view()
                == InputModel::Notification(notification@),
            CollectorInput::Lagged => input.deep_view() is Lagged,
            CollectorInput::Closed => input.deep_view() is Closed,
            CollectorInput::Elapsed => input.deep_view() is Elapsed,
        },
{
}

/// No input changes whose turn it is or under which id its response is known.
pub proof fn law_a_turn_keeps_its_ids(turn: TurnModel, input: InputModel)
    ensures
        turn_after(turn, input).session_id == turn.session_id,
        turn_after(turn, input).request_id == turn.request_id,
{
}

/// A collector that takes in a text delta of its session hands on that delta as
/// it came, and no other text, and keeps it at the end of its reply.
pub proof fn law_collecting_a_delta_hands_it_on(
    collector: &mut TurnCollector,
    input: CollectorInput,
    actions: Vec<CollectorAction>,
    delta: Seq<char>,
)
    requires
        call_ensures(TurnCollector::step, (collector, input), actions),
        streams_text(old(collector)@.session_id, input.deep_view(), delta),
        delta.len() > 0,
    ensures
        final(collector)@.stream.reply == old(collector)@.stream.reply + delta,
        actions@.len() > 0,
        actions.deep_view().last() == ActionModel::EmitOrStop(EventModel::OutputTextDelta(delta)),
        sent_text(actions.deep_view()) == delta,
{
    law_a_delta_is_handed_on_as_it_came(old(collector)@, input.deep_view(), delta);
    reveal_with_fuel(sent_text, 3);
    let sent = actions.deep_view();
    if sent.len() == 1 {
        assert(sent.drop_last() =~= Seq::empty());
    } else {
        assert(sent.drop_last() =~= seq![sent[0]]);
        assert(sent.drop_last().drop_last() =~= Seq::empty());
    }
    assert(Seq::<char>::empty() + delta =~= delta);
}

/// Only `build`, white space aside, gates a session, and only the values that
/// switch a feature on turn the bridge on.
pub proof fn law_only_build_gates_a_session(value: Option<&str>, mode: WarmMode, enabled: bool)
    requires
        call_ensures(warm_mode_from_value, (value,), mode),
        call_ensures(warm_bridge_enabled_from_value, (value,), enabled),
    ensures
        mode == WarmMode::Build <==> text::setting_is(value.deep_view(), "build"@),
        enabled <==> text::switched_on(value.deep_view()),
        ZCODE_WARM_MAX_CONSECUTIVE_FAILURES == 2,
        REQUEST_TIMEOUT_SECS == 120,
{
}

/// A collector does with an input what its turn does with it, and nothing else.
pub proof fn law_a_collector_follows_its_turn(
    session_id: &str,
    request_id: &str,
    fresh: TurnCollector,
    collector: &mut TurnCollector,
    input: CollectorInput,
    actions: Vec<CollectorAction>,
)
    requires
        call_ensures(TurnCollector::new, (session_id, request_id), fresh),
        call_ensures(TurnCollector::step, (collector, input), actions),
    ensures
        fresh@ == turn_start(session_id@, request_id@),
        final(collector)@ == turn_after(old(collector)@, input.deep_view()),
        actions.deep_view() == turn_actions(old(collector)@, input.deep_view()),
{
}

/// How a turn ended is read off its payload: the error that its result stands
/// for, the tokens it took, and what went wrong.
pub proof fn law_the_end_of_a_turn_is_read_off_its_payload(
    result_type: &str,
    error: Option<ApiError>,
    payload: &Json,
    tokens: TokenUsage,
    message: Option<String>,
)
    requires
        call_ensures(zcode_completed_turn_error, (result_type,), error),
        call_ensures(token_usage_from_turn_payload, (payload,), tokens),
        call_ensures(zcode_failure_message, (payload,), message),
    ensures
        error is None <==> result_type@ == "success"@,
        error.deep_view() == completed_turn_error(result_type@),
        tokens == turn_usage(payload@),
        message.deep_view() == failure_message(payload@),
{
    law_only_deterministic_stops_are_final(result_type@);
}

/// A session is stopped by its own id, and the app-server is started in its
/// workspace; a mode goes by its wire name.
pub proof fn law_stops_and_starts_are_in_their_session(
    session_id: &str,
    params: Json,
    cjs: &str,
    workspace_path: &str,
    arguments: Vec<String>,
    mode: WarmMode,
    name: &'static str,
)
    requires
        call_ensures(stop_params, (session_id,), params),
        call_ensures(app_server_arguments, (cjs, workspace_path), arguments),
        call_ensures(WarmMode::wire_session_mode, (mode,), name),
    ensures
        json::has_member(params@, "sessionId"@, JsonModel::Str(session_id@)),
        arguments.deep_view() == app_server_command(cjs@, workspace_path@),
        name@ == mode_name(mode),
{
}

} // verus!
