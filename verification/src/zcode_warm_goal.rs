//! Goal mirroring for warm sessions over `session/goal`.
//!
//! The host sets the session goal, which starts the core's own goal loop: the
//! core's completion verifier drives continuation turns until it proves the
//! goal complete. The verified outcome is mapped back onto an `update_goal`
//! call, so the host keeps its books as if the model had made that call.

use crate::json;
use crate::json::json_at;
use crate::json::text_at;
use crate::json::Json;
use crate::json::JsonModel;
use crate::protocol::assistant_message;
use crate::protocol::assistant_model;
use crate::protocol::no_tokens;
use crate::protocol::ApiError;
use crate::protocol::ApiErrorModel;
use crate::protocol::ContentItem;
use crate::protocol::ContentItemModel;
use crate::protocol::EventModel;
use crate::protocol::ResponseEvent;
use crate::protocol::ResponseItem;
use crate::protocol::ResponseItemModel;
use crate::protocol::TokenUsage;
use crate::protocol::ToolSpec;
use crate::protocol::ToolSpecModel;
use crate::text;
use crate::text::is_switched_on;
use crate::text::str_eq;
use crate::zcode_warm;
use crate::zcode_warm::act;
use crate::zcode_warm::is_tool_event;
use crate::zcode_warm::no_actions;
use crate::zcode_warm::payload_or_null;
use crate::zcode_warm::token_usage_from_turn_payload;
use crate::zcode_warm::turn_failure;
use crate::zcode_warm::turn_verdict;
use crate::zcode_warm::ActionModel;
use crate::zcode_warm::CollectorAction;
use crate::zcode_warm::CollectorInput;
use crate::zcode_warm::InputModel;
use crate::zcode_warm::StreamModel;
use crate::zcode_warm::StreamState;
use vstd::prelude::*;

verus! {

broadcast use vstd::string::group_string_axioms;

/// Upper bound on core turns one mirrored request may span. The core's
/// verifier has no "blocked" verdict, so an unachievable goal would loop
/// forever; at this cap the bridge stops the run and pauses the core goal
/// without completion.
pub const MAX_MIRRORED_GOAL_TURNS: u32 = 12;

/// The objective is user-authored data quoted back into a core prompt; the cap
/// keeps a pathological goal from dominating the core's context.
pub const OBJECTIVE_CHAR_BUDGET: usize = 4_000;

/// Whether a `ZCODE_WARM_GOAL` value asks for goal mirroring; unknown values
/// keep the mirror off.
pub fn goal_mirror_enabled_from_value(value: Option<&str>) -> (enabled: bool)
    ensures
        enabled == text::switched_on(value.deep_view()),
{
    is_switched_on(value)
}

/// The texts that the user wrote among the parts of a message.
pub open spec fn input_texts(content: Seq<ContentItemModel>) -> Seq<Seq<char>>
    decreases content.len(),
{
    if content.len() == 0 {
        Seq::empty()
    } else {
        match content.last() {
            ContentItemModel::InputText { text } => input_texts(content.drop_last()).push(text),
            _ => input_texts(content.drop_last()),
        }
    }
}

/// The text of the newest user message: its input texts, one per line.
pub open spec fn newest_user_text(input: Seq<ResponseItemModel>) -> Option<Seq<char>>
    decreases input.len(),
{
    if input.len() == 0 {
        None
    } else {
        match input.last() {
            ResponseItemModel::Message { role, content } => if role == "user"@ {
                Some(text::joined(input_texts(content), "\n"@))
            } else {
                newest_user_text(input.drop_last())
            },
            _ => newest_user_text(input.drop_last()),
        }
    }
}

/// The objective that a prompt quotes between its first `<objective>` and the
/// first `</objective>` after it, cut to the budget. One that is blank counts
/// as none.
pub open spec fn quoted_objective(prompt: Seq<char>) -> Option<Seq<char>> {
    match text::first_index(prompt, "<objective>"@) {
        Some(open) => {
            let rest = prompt.subrange(open + "<objective>"@.len(), prompt.len() as int);
            match text::first_index(rest, "</objective>"@) {
                Some(len) => {
                    let objective = text::trimmed(rest.subrange(0, len));
                    if objective.len() == 0 {
                        None
                    } else {
                        Some(text::first_chars(objective, OBJECTIVE_CHAR_BUDGET as nat))
                    }
                },
                None => None,
            }
        },
        None => None,
    }
}

/// The objective of the goal continuation that the newest user message holds.
pub open spec fn prompt_objective(input: Seq<ResponseItemModel>) -> Option<Seq<char>> {
    match newest_user_text(input) {
        Some(prompt) => quoted_objective(prompt),
        None => None,
    }
}

fn user_texts(content: &Vec<ContentItem>) -> (texts: Vec<String>)
    ensures
        texts.deep_view() == input_texts(content.deep_view()),
{
    let mut texts: Vec<String> = Vec::new();
    let mut i: usize = 0;
    let ghost all = content.deep_view();
    assert(texts.deep_view() =~= input_texts(all.take(0)));
    while i < content.len()
        invariant
            i <= content@.len(),
            all == content.deep_view(),
            texts.deep_view() == input_texts(all.take(i as int)),
        decreases content@.len() - i,
    {
        let ghost before = texts.deep_view();
        assert(all.take(i + 1).drop_last() =~= all.take(i as int));
        assert(all.take(i + 1).last() == content@[i as int].deep_view());
        if let ContentItem::InputText { text } = &content[i] {
            texts.push(text.clone());
            assert(texts.deep_view() =~= before.push(text@));
        }
        i = i + 1;
    }
    assert(all.take(all.len() as int) =~= all);
    texts
}

/// Extracts the active objective from the goal continuation template that the
/// newest user message holds.
pub fn goal_objective_from_prompt(input: &[ResponseItem]) -> (objective: Option<String>)
    ensures
        objective.deep_view() == prompt_objective(input.deep_view()),
{
    let mut len: usize = input.len();
    let ghost all = input.deep_view();
    assert(all.take(all.len() as int) =~= all);
    while len > 0
        invariant
            len <= input@.len(),
            all == input.deep_view(),
            newest_user_text(all) == newest_user_text(all.take(len as int)),
        decreases len,
    {
        assert(all.take(len as int).drop_last() =~= all.take(len - 1));
        assert(all.take(len as int).last() == input@[len - 1].deep_view());
        if let ResponseItem::Message { role, content } = &input[len - 1] {
            if str_eq(role.as_str(), "user") {
                let texts = user_texts(content);
                let prompt = text::join(&texts, "\n");
                return objective_quoted_in(prompt.as_str());
            }
        }
        len = len - 1;
    }
    None
}

/// The objective that a prompt quotes, if it quotes one.
fn objective_quoted_in(prompt: &str) -> (objective: Option<String>)
    ensures
        objective.deep_view() == quoted_objective(prompt@),
{
    proof {
        reveal_strlit("<objective>");
        lemma_first_index_fits(prompt@, "<objective>"@, 0);
    }
    let open: usize = match text::find(prompt, "<objective>") {
        Some(open) => open,
        None => return None,
    };
    let total: usize = prompt.unicode_len();
    let rest = prompt.substring_char(open + 11, total);
    proof {
        lemma_first_index_fits(rest@, "</objective>"@, 0);
    }
    let len: usize = match text::find(rest, "</objective>") {
        Some(len) => len,
        None => return None,
    };
    let objective = text::trim(rest.substring_char(0, len));
    if objective.is_empty() {
        None
    } else {
        Some(text::take_chars(objective, OBJECTIVE_CHAR_BUDGET))
    }
}

proof fn lemma_first_index_fits(whole: Seq<char>, part: Seq<char>, from: int)
    requires
        0 <= from,
    ensures
        text::first_index_from(whole, part, from) matches Some(at) ==> from <= at && at + part.len()
            <= whole.len(),
    decreases whole.len() - from + 1,
{
    if from + part.len() <= whole.len() && !text::occurs_at(whole, part, from) {
        lemma_first_index_fits(whole, part, from + 1);
    }
}

/// Whether a goal is active: the model is offered `update_goal`.
pub open spec fn goal_tools_active(tools: Seq<ToolSpecModel>) -> bool {
    tools.contains(ToolSpecModel::Function { name: "update_goal"@ })
}

/// Whether a goal is active: the model is offered `update_goal`.
pub fn zcode_goal_tools_active(tools: &[ToolSpec]) -> (active: bool)
    ensures
        active == goal_tools_active(tools.deep_view()),
{
    let mut i: usize = 0;
    let ghost wanted = ToolSpecModel::Function { name: "update_goal"@ };
    while i < tools.len()
        invariant
            i <= tools@.len(),
            wanted == (ToolSpecModel::Function { name: "update_goal"@ }),
            forall|j: int| 0 <= j < i ==> #[trigger] tools.deep_view()[j] != wanted,
        decreases tools@.len() - i,
    {
        if let ToolSpec::Function { name } = &tools[i] {
            if str_eq(name.as_str(), "update_goal") {
                assert(tools.deep_view()[i as int] == wanted);
                return true;
            }
        }
        i = i + 1;
    }
    false
}

/// The objective to mirror for a prompt, when the mirror applies.
pub open spec fn mirrored_objective(
    mirror_value: Option<Seq<char>>,
    tools: Seq<ToolSpecModel>,
    input: Seq<ResponseItemModel>,
) -> Option<Seq<char>> {
    if text::switched_on(mirror_value) && goal_tools_active(tools) {
        prompt_objective(input)
    } else {
        None
    }
}

/// The objective to mirror for a prompt, when the mirror applies: mirroring
/// switched on, a goal active, and the objective found in the prompt.
pub fn mirrored_goal_objective_for(
    mirror_value: Option<&str>,
    tools: &[ToolSpec],
    input: &[ResponseItem],
) -> (objective: Option<String>)
    ensures
        objective.deep_view() == mirrored_objective(
            mirror_value.deep_view(),
            tools.deep_view(),
            input.deep_view(),
        ),
{
    if !goal_mirror_enabled_from_value(mirror_value) {
        return None;
    }
    if !zcode_goal_tools_active(tools) {
        return None;
    }
    goal_objective_from_prompt(input)
}

/// The params of the `session/goal` request that sets the goal.
pub open spec fn goal_set_model(session_id: Seq<char>, objective: Seq<char>) -> JsonModel {
    json::object_model().with("sessionId"@, JsonModel::Str(session_id)).with(
        "action"@,
        JsonModel::Str("set"@),
    ).with("objective"@, JsonModel::Str(objective))
}

/// The params of the `session/goal` request that pauses the goal.
pub open spec fn goal_pause_model(session_id: Seq<char>) -> JsonModel {
    json::object_model().with("sessionId"@, JsonModel::Str(session_id)).with(
        "action"@,
        JsonModel::Str("pause"@),
    )
}

/// The params of the `session/goal` request that sets the goal.
pub fn goal_set_params(session_id: &str, objective: &str) -> (params: Json)
    ensures
        params@ == goal_set_model(session_id@, objective@),
{
    Json::object().with("sessionId", Json::text(session_id)).with("action", Json::text("set")).with(
        "objective",
        Json::text(objective),
    )
}

/// The params of the `session/goal` request that pauses the goal.
pub fn goal_pause_params(session_id: &str) -> (params: Json)
    ensures
        params@ == goal_pause_model(session_id@),
{
    Json::object().with("sessionId", Json::text(session_id)).with("action", Json::text("pause"))
}

/// Why the mirror cannot start, given the core's answer to setting the goal.
pub open spec fn mirror_refusal(set: Result<JsonModel, Seq<char>>) -> Option<Seq<char>> {
    match set {
        Ok(result) => match result.get("startedTurn"@) {
            Some(started) => if started.as_bool() == Some(true) {
                None
            } else {
                Some("core accepted the goal but did not start the goal loop"@)
            },
            None => Some("core accepted the goal but did not start the goal loop"@),
        },
        Err(message) => Some(message),
    }
}

/// Decides whether the mirror starts. The core refuses goal management
/// mid-turn and skips the continuation in plan mode; either way there is
/// nothing to collect and the prompt must go out as a normal turn, which the
/// error says.
pub fn mirror_start(set: Result<Json, String>) -> (started: Result<(), String>)
    ensures
        (match started {
            Ok(_) => None,
            Err(message) => Some(message@),
        }) == mirror_refusal(json::read_model(set)),
{
    match set {
        Ok(result) => {
            let started = match result.get("startedTurn") {
                Some(started) => match started.as_bool() {
                    Some(started) => started,
                    None => false,
                },
                None => false,
            };
            if started {
                Ok(())
            } else {
                Err("core accepted the goal but did not start the goal loop".to_owned())
            }
        },
        Err(message) => Err(message),
    }
}

/// How the mirrored goal loop ended.
#[derive(Clone, Copy, Debug, PartialEq, Eq, Structural)]
pub enum Settle {
    /// The core's verifier proved the goal complete.
    Complete,
    /// The loop ended without a verified completion: paused, over budget,
    /// cleared, or at the turn cap.
    WithoutComplete,
}

/// How a `session.updated` payload settles the goal, if it does.
pub open spec fn settled_by(payload: Option<JsonModel>) -> Option<Settle> {
    let status = json::str_in(json::get_in(payload, "target"@), "status"@);
    if status == Some("complete"@) {
        Some(Settle::Complete)
    } else if status == Some("paused"@) || status == Some("budget_limited"@) {
        Some(Settle::WithoutComplete)
    } else if json::str_in(payload, "action"@) == Some("cleared"@) {
        Some(Settle::WithoutComplete)
    } else {
        None
    }
}

/// How a `session.updated` payload settles the goal, if it does.
pub fn settle_from_update(payload: Option<&Json>) -> (settle: Option<Settle>)
    ensures
        settle == settled_by(payload.deep_view()),
{
    let status = text_at(json_at(payload, "target"), "status");
    if text::opt_str_is(status, "complete") {
        Some(Settle::Complete)
    } else if text::opt_str_is(status, "paused") || text::opt_str_is(status, "budget_limited") {
        Some(Settle::WithoutComplete)
    } else if text::opt_str_is(text_at(payload, "action"), "cleared") {
        Some(Settle::WithoutComplete)
    } else {
        None
    }
}

/// The state of the collector of one mirrored goal loop.
pub struct GoalModel {
    pub session_id: Seq<char>,
    pub request_id: Seq<char>,
    pub stream: StreamModel,
    /// How many turns the loop has completed.
    pub turns_seen: u32,
    /// The token counts of the last completed turn.
    pub usage: TokenUsage,
    pub ended: bool,
}

/// Collects the session events of a mirrored goal loop and turns them into the
/// events of the response stream.
#[derive(Debug)]
pub struct GoalCollector {
    session_id: String,
    request_id: String,
    stream: StreamState,
    turns_seen: u32,
    usage: TokenUsage,
    ended: bool,
}

impl View for GoalCollector {
    type V = GoalModel;

    closed spec fn view(&self) -> GoalModel {
        GoalModel {
            session_id: self.session_id@,
            request_id: self.request_id@,
            stream: self.stream@,
            turns_seen: self.turns_seen,
            usage: self.usage,
            ended: self.ended,
        }
    }
}

/// A goal loop of which no event has arrived yet.
pub open spec fn goal_start(session_id: Seq<char>, request_id: Seq<char>) -> GoalModel {
    GoalModel {
        session_id,
        request_id,
        stream: zcode_warm::stream_start(),
        turns_seen: 0,
        usage: no_tokens(),
        ended: false,
    }
}

/// A loop that is still being collected has stayed below the turn cap.
pub open spec fn goal_open(goal: GoalModel) -> bool {
    !goal.ended && goal.turns_seen < MAX_MIRRORED_GOAL_TURNS
}

/// Whether a notification is a `turn.completed` that finished normally.
pub open spec fn turn_finished(notification: JsonModel) -> bool {
    notification.str_at("type"@) == Some("turn.completed"@) && zcode_warm::completed_turn_error(
        zcode_warm::result_type_of(zcode_warm::payload_of(notification)),
    ) is None
}

/// How a notification settles the goal, if it does.
pub open spec fn goal_settle(goal: GoalModel, notification: JsonModel) -> Option<Settle> {
    if turn_finished(notification) && goal.turns_seen + 1 >= MAX_MIRRORED_GOAL_TURNS {
        Some(Settle::WithoutComplete)
    } else if notification.str_at("type"@) == Some("session.updated"@) {
        settled_by(notification.get("payload"@))
    } else {
        None
    }
}

/// The state of a goal loop after a notification of its session.
pub open spec fn goal_after_notification(goal: GoalModel, notification: JsonModel) -> GoalModel {
    let event_type = notification.str_at("type"@);
    let payload = zcode_warm::payload_of(notification);
    if event_type == Some("model.streaming"@) {
        GoalModel {
            stream: zcode_warm::stream_after_delta(
                goal.stream,
                zcode_warm::text_delta(notification),
            ),
            ..goal
        }
    } else if zcode_warm::tool_event(event_type) {
        GoalModel { stream: zcode_warm::stream_after_tool(goal.stream, notification), ..goal }
    } else if turn_finished(notification) {
        GoalModel {
            stream: StreamModel { names: goal.stream.names, ..zcode_warm::stream_start() },
            turns_seen: (goal.turns_seen + 1) as u32,
            usage: zcode_warm::turn_usage(payload),
            ended: goal_settle(goal, notification) is Some,
            ..goal
        }
    } else if event_type == Some("turn.failed"@) || event_type == Some("turn.completed"@) {
        GoalModel { ended: true, ..goal }
    } else {
        GoalModel { ended: goal_settle(goal, notification) is Some, ..goal }
    }
}

/// The state of a goal loop after one input.
pub open spec fn goal_after(goal: GoalModel, input: InputModel) -> GoalModel {
    match input {
        InputModel::Lagged => goal,
        InputModel::Closed => GoalModel { ended: true, ..goal },
        InputModel::Elapsed => GoalModel { ended: true, ..goal },
        InputModel::Notification(notification) => if notification.str_at("sessionId"@) != Some(
            goal.session_id,
        ) {
            goal
        } else {
            goal_after_notification(goal, notification)
        },
    }
}

/// The call by which a verified completion is reported to the host.
pub open spec fn update_goal_model(request_id: Seq<char>) -> ResponseItemModel {
    ResponseItemModel::FunctionCall {
        name: "update_goal"@,
        arguments: "{\"status\":\"complete\"}"@,
        encrypted_function_args: Some(Seq::empty()),
        call_id: "zcode_goal_"@ + request_id,
    }
}

/// What settling makes the collector do, in the state that it settles in. A
/// paused or cleared goal can leave a core turn running with no collector
/// left, so that is stopped first; a verified completion is reported.
pub open spec fn settle_actions(goal: GoalModel, settle: Settle) -> Seq<ActionModel> {
    let completed = ActionModel::Emit(
        EventModel::Completed {
            response_id: goal.request_id,
            token_usage: Some(goal.usage),
            end_turn: Some(true),
        },
    );
    match settle {
        Settle::Complete => seq![
            ActionModel::Emit(EventModel::OutputItemDone(update_goal_model(goal.request_id))),
            completed,
        ],
        Settle::WithoutComplete => seq![ActionModel::StopTurn, completed],
    }
}

/// What a finished turn makes the collector do, whether or not it settles the
/// goal: send the reply, where there is one, and at the turn cap stop the run
/// and pause the core goal.
pub open spec fn finished_turn_actions(goal: GoalModel, payload: JsonModel) -> Seq<ActionModel> {
    let reply = zcode_warm::turn_reply(goal.stream, payload);
    let done = if reply.len() > 0 {
        seq![ActionModel::EmitOrEnd(EventModel::OutputItemDone(assistant_model(reply)))]
    } else {
        Seq::empty()
    };
    if goal.turns_seen + 1 >= MAX_MIRRORED_GOAL_TURNS {
        done + seq![
            ActionModel::Request {
                method: "session/stop"@,
                params: zcode_warm::stop_model(goal.session_id),
            },
            ActionModel::Request {
                method: "session/goal"@,
                params: goal_pause_model(goal.session_id),
            },
        ]
    } else {
        done
    }
}

/// What a notification of the session makes the collector do.
pub open spec fn goal_notification_actions(
    goal: GoalModel,
    notification: JsonModel,
) -> Seq<ActionModel> {
    let event_type = notification.str_at("type"@);
    let payload = zcode_warm::payload_of(notification);
    let settling = match goal_settle(goal, notification) {
        Some(settle) => settle_actions(goal_after_notification(goal, notification), settle),
        None => Seq::empty(),
    };
    if event_type == Some("model.streaming"@) {
        zcode_warm::delta_actions(goal.stream, zcode_warm::text_delta(notification))
    } else if zcode_warm::tool_event(event_type) {
        zcode_warm::tool_actions(goal.stream, notification)
    } else if event_type == Some("turn.failed"@) {
        seq![ActionModel::Fail(zcode_warm::failed_turn_error(payload))]
    } else if event_type == Some("turn.completed"@) {
        match zcode_warm::completed_turn_error(zcode_warm::result_type_of(payload)) {
            Some(error) => seq![ActionModel::Fail(error)],
            None => finished_turn_actions(goal, payload) + settling,
        }
    } else {
        settling
    }
}

/// What one input makes the collector of a goal loop do.
pub open spec fn goal_actions(goal: GoalModel, input: InputModel) -> Seq<ActionModel> {
    match input {
        InputModel::Lagged => Seq::empty(),
        InputModel::Closed => seq![
            ActionModel::Fail(
                ApiErrorModel::Stream("ZCode warm app-server event stream closed"@),
            ),
        ],
        InputModel::Elapsed => seq![
            ActionModel::Kill("mirrored goal turn stalled"@),
            ActionModel::Fail(
                ApiErrorModel::Stream(
                    "ZCode warm goal loop stalled: no session events before the idle window elapsed"@,
                ),
            ),
        ],
        InputModel::Notification(notification) => if notification.str_at("sessionId"@) != Some(
            goal.session_id,
        ) {
            Seq::empty()
        } else {
            goal_notification_actions(goal, notification)
        },
    }
}

impl GoalCollector {
    /// A collector for a goal loop of `session_id` whose response is known as
    /// `request_id`.
    pub fn new(session_id: &str, request_id: &str) -> (collector: GoalCollector)
        ensures
            collector@ == goal_start(session_id@, request_id@),
            goal_open(collector@),
    {
        GoalCollector {
            session_id: session_id.to_owned(),
            request_id: request_id.to_owned(),
            stream: StreamState::new(),
            turns_seen: 0,
            usage: TokenUsage::default(),
            ended: false,
        }
    }

    /// Whether the loop is over and no more input is looked at.
    pub fn is_ended(&self) -> (ended: bool)
        ensures
            ended == self@.ended,
    {
        self.ended
    }

    /// Takes in one input and says what to do about it.
    pub fn step(&mut self, input: CollectorInput) -> (actions: Vec<CollectorAction>)
        requires
            goal_open(old(self)@),
        ensures
            final(self)@ == goal_after(old(self)@, input.deep_view()),
            actions.deep_view() == goal_actions(old(self)@, input.deep_view()),
            goal_open(final(self)@) || final(self)@.ended,
    {
        let mut actions = no_actions();
        match input {
            CollectorInput::Lagged => {},
            CollectorInput::Closed => {
                self.ended = true;
                act(
                    &mut actions,
                    CollectorAction::Fail(
                        ApiError::Stream("ZCode warm app-server event stream closed".to_owned()),
                    ),
                );
            },
            CollectorInput::Elapsed => {
                self.ended = true;
                act(&mut actions, CollectorAction::Kill("mirrored goal turn stalled".to_owned()));
                act(
                    &mut actions,
                    CollectorAction::Fail(
                        ApiError::Stream(
                            "ZCode warm goal loop stalled: no session events before the idle window elapsed".to_owned(),
                        ),
                    ),
                );
            },
            CollectorInput::Notification(notification) => {
                if text::opt_str_is(notification.str_at("sessionId"), self.session_id.as_str()) {
                    return self.take_notification(&notification);
                }
            },
        }
        assert(actions.deep_view() =~= goal_actions(old(self)@, input.deep_view()));
        actions
    }

    fn take_notification(&mut self, notification: &Json) -> (actions: Vec<CollectorAction>)
        requires
            goal_open(old(self)@),
        ensures
            final(self)@ == goal_after_notification(old(self)@, notification@),
            actions.deep_view() == goal_notification_actions(old(self)@, notification@),
            goal_open(final(self)@) || final(self)@.ended,
    {
        let mut actions = no_actions();
        let event_type = notification.str_at("type");
        proof {
            lemma_event_types_differ();
        }
        if text::opt_str_is(event_type, "model.streaming") {
            return self.stream.take_delta(notification);
        }
        if is_tool_event(event_type) {
            return self.stream.take_tool_event(notification);
        }
        if text::opt_str_is(event_type, "turn.failed") {
            self.ended = true;
            let payload = payload_or_null(notification);
            act(&mut actions, CollectorAction::Fail(turn_failure(&payload)));
        } else if text::opt_str_is(event_type, "turn.completed") {
            let payload = payload_or_null(notification);
            match turn_verdict(&payload) {
                Some(error) => {
                    self.ended = true;
                    act(&mut actions, CollectorAction::Fail(error));
                },
                None => {
                    self.usage = token_usage_from_turn_payload(&payload);
                    self.finish_turn(&payload, &mut actions);
                    if self.turns_seen >= MAX_MIRRORED_GOAL_TURNS {
                        self.settle(Settle::WithoutComplete, &mut actions);
                    }
                },
            }
        } else if text::opt_str_is(event_type, "session.updated") {
            if let Some(settle) = settle_from_update(notification.get("payload")) {
                self.settle(settle, &mut actions);
            }
        }
        assert(actions.deep_view() =~= goal_notification_actions(old(self)@, notification@));
        actions
    }

    fn finish_turn(&mut self, payload: &Json, actions: &mut Vec<CollectorAction>)
        requires
            goal_open(old(self)@),
            old(actions).deep_view().len() == 0,
        ensures
            final(self)@ == (GoalModel {
                stream: StreamModel {
                    names: old(self)@.stream.names,
                    ..zcode_warm::stream_start()
                },
                turns_seen: (old(self)@.turns_seen + 1) as u32,
                ..old(self)@
            }),
            final(actions).deep_view() == finished_turn_actions(old(self)@, payload@),
    {
        let reply = self.stream.take_reply(payload);
        if !reply.as_str().is_empty() {
            act(
                actions,
                CollectorAction::EmitOrEnd(
                    ResponseEvent::OutputItemDone(assistant_message(reply)),
                ),
            );
        }
        self.turns_seen = self.turns_seen + 1;
        if self.turns_seen >= MAX_MIRRORED_GOAL_TURNS {
            act(
                actions,
                CollectorAction::Request {
                    method: "session/stop".to_owned(),
                    params: zcode_warm::stop_params(self.session_id.as_str()),
                },
            );
            act(
                actions,
                CollectorAction::Request {
                    method: "session/goal".to_owned(),
                    params: goal_pause_params(self.session_id.as_str()),
                },
            );
        }
        assert(actions.deep_view() =~= finished_turn_actions(old(self)@, payload@));
    }

    fn settle(&mut self, settle: Settle, actions: &mut Vec<CollectorAction>)
        ensures
            final(self)@ == (GoalModel { ended: true, ..old(self)@ }),
            final(actions).deep_view() == old(actions).deep_view() + settle_actions(
                final(self)@,
                settle,
            ),
    {
        self.ended = true;
        let no_args: Vec<String> = Vec::new();
        assert(no_args.deep_view() =~= Seq::<Seq<char>>::empty());
        match settle {
            Settle::Complete => act(
                actions,
                CollectorAction::Emit(
                    ResponseEvent::OutputItemDone(
                        ResponseItem::FunctionCall {
                            name: "update_goal".to_owned(),
                            arguments: "{\"status\":\"complete\"}".to_owned(),
                            encrypted_function_args: Some(no_args),
                            call_id: "zcode_goal_".to_owned().concat(self.request_id.as_str()),
                        },
                    ),
                ),
            ),
            Settle::WithoutComplete => act(actions, CollectorAction::StopTurn),
        }
        act(
            actions,
            CollectorAction::Emit(
                ResponseEvent::Completed {
                    response_id: self.request_id.clone(),
                    token_usage: Some(self.usage),
                    end_turn: Some(true),
                },
            ),
        );
        assert(actions.deep_view() =~= old(actions).deep_view() + settle_actions(self@, settle));
    }
}

/// No two of the event types that the collectors look for are the same.
pub(crate) proof fn lemma_event_types_differ()
    ensures
        "turn.completed"@ != "session.updated"@,
        "turn.failed"@ != "session.updated"@,
        "turn.failed"@ != "turn.completed"@,
        "model.streaming"@ != "session.updated"@,
        "model.streaming"@ != "turn.completed"@,
        "model.streaming"@ != "turn.failed"@,
        "tool_call_scheduled"@ != "turn.failed"@,
        "tool_call_result"@ != "turn.failed"@,
        "tool_call_error"@ != "turn.failed"@,
        "tool_call_scheduled"@ != "session.updated"@,
        "tool_call_result"@ != "session.updated"@,
        "tool_call_error"@ != "session.updated"@,
        "tool_call_scheduled"@ != "turn.completed"@,
        "tool_call_result"@ != "turn.completed"@,
        "tool_call_error"@ != "turn.completed"@,
{
    reveal_strlit("model.streaming");
    reveal_strlit("tool_call_scheduled");
    reveal_strlit("tool_call_result");
    reveal_strlit("tool_call_error");
    reveal_strlit("turn.failed");
    reveal_strlit("turn.completed");
    reveal_strlit("session.updated");
    assert("turn.completed"@[0] != "session.updated"@[0]);
    assert("turn.failed"@[0] != "session.updated"@[0]);
    assert("turn.failed"@[5] != "turn.completed"@[5]);
    assert("model.streaming"@[0] != "session.updated"@[0]);
    assert("model.streaming"@[0] != "turn.completed"@[0]);
    assert("model.streaming"@[0] != "turn.failed"@[0]);
    assert("tool_call_scheduled"@[1] != "turn.failed"@[1]);
    assert("tool_call_result"@[1] != "turn.failed"@[1]);
    assert("tool_call_error"@[1] != "turn.failed"@[1]);
    assert("tool_call_scheduled"@[0] != "session.updated"@[0]);
    assert("tool_call_result"@[0] != "session.updated"@[0]);
    assert("tool_call_error"@[0] != "session.updated"@[0]);
    assert("tool_call_scheduled"@[1] != "turn.completed"@[1]);
    assert("tool_call_result"@[1] != "turn.completed"@[1]);
    assert("tool_call_error"@[1] != "turn.completed"@[1]);
}

/// The state of a goal loop after several inputs. A loop that has ended looks
/// at no more of them.
pub open spec fn goal_run(goal: GoalModel, inputs: Seq<InputModel>) -> GoalModel
    decreases inputs.len(),
{
    if inputs.len() == 0 {
        goal
    } else {
        let before = goal_run(goal, inputs.drop_last());
        if before.ended {
            before
        } else {
            goal_after(before, inputs.last())
        }
    }
}

/// What several inputs make the collector of a goal loop do.
pub open spec fn goal_run_actions(goal: GoalModel, inputs: Seq<InputModel>) -> Seq<ActionModel>
    decreases inputs.len(),
{
    if inputs.len() == 0 {
        Seq::empty()
    } else {
        let before = goal_run(goal, inputs.drop_last());
        let actions = goal_run_actions(goal, inputs.drop_last());
        if before.ended {
            actions
        } else {
            actions + goal_actions(before, inputs.last())
        }
    }
}

/// A goal loop never spans more turns than the cap, and it has ended when it
/// reaches the cap, whatever the core sends.
pub proof fn law_goal_loop_is_capped(
    session_id: Seq<char>,
    request_id: Seq<char>,
    inputs: Seq<InputModel>,
)
    ensures
        ({
            let goal = goal_run(goal_start(session_id, request_id), inputs);
            &&& goal.turns_seen <= MAX_MIRRORED_GOAL_TURNS
            &&& goal.turns_seen == MAX_MIRRORED_GOAL_TURNS ==> goal.ended
        }),
    decreases inputs.len(),
{
    if inputs.len() > 0 {
        law_goal_loop_is_capped(session_id, request_id, inputs.drop_last());
    }
}

/// The turn that reaches the cap stops the run and pauses the core goal, and
/// the response is completed without reporting the goal complete.
pub proof fn law_capped_loop_pauses_the_goal(goal: GoalModel, notification: JsonModel)
    requires
        goal_open(goal),
        goal.turns_seen + 1 == MAX_MIRRORED_GOAL_TURNS,
        notification.str_at("sessionId"@) == Some(goal.session_id),
        turn_finished(notification),
    ensures
        ({
            let actions = goal_actions(goal, InputModel::Notification(notification));
            let n = actions.len() as int;
            &&& goal_after(goal, InputModel::Notification(notification)).ended
            &&& n >= 4
            &&& actions[n - 4] == ActionModel::Request {
                method: "session/stop"@,
                params: zcode_warm::stop_model(goal.session_id),
            }
            &&& actions[n - 3] == ActionModel::Request {
                method: "session/goal"@,
                params: goal_pause_model(goal.session_id),
            }
            &&& actions[n - 2] is StopTurn
            &&& actions[n - 1] is Emit && actions[n - 1]->Emit_0 is Completed
            &&& forall|i: int| 0 <= i < n ==> !zcode_warm::hands_over_call(#[trigger] actions[i])
        }),
{
    lemma_event_types_differ();
}

/// Whether a notification says that the core's verifier proved the goal of the
/// session complete.
pub open spec fn verified_complete(session_id: Seq<char>, input: InputModel) -> bool {
    match input {
        InputModel::Notification(notification) => {
            &&& notification.str_at("sessionId"@) == Some(session_id)
            &&& notification.str_at("type"@) == Some("session.updated"@)
            &&& json::str_in(json::get_in(notification.get("payload"@), "target"@), "status"@)
                == Some("complete"@)
        },
        _ => false,
    }
}

/// The goal is reported complete by exactly those steps that take in a
/// verified completion, and by no other: not by a pause, an exhausted budget,
/// a cleared goal, the cap, or a failure.
pub proof fn law_only_verified_completion_is_reported(goal: GoalModel, input: InputModel)
    ensures
        verified_complete(goal.session_id, input) <==> exists|i: int|
            0 <= i < goal_actions(goal, input).len() && zcode_warm::hands_over_call(
                #[trigger] goal_actions(goal, input)[i],
            ),
        verified_complete(goal.session_id, input) ==> goal_after(goal, input).ended
            && goal_actions(goal, input)[0] == ActionModel::Emit(
            EventModel::OutputItemDone(update_goal_model(goal.request_id)),
        ),
{
    lemma_event_types_differ();
    let actions = goal_actions(goal, input);
    if verified_complete(goal.session_id, input) {
        assert(zcode_warm::hands_over_call(actions[0]));
    } else {
        assert forall|i: int| 0 <= i < actions.len() implies !zcode_warm::hands_over_call(
            #[trigger] actions[i],
        ) by {
            match input {
                InputModel::Notification(notification) => {
                    if notification.str_at("sessionId"@) == Some(goal.session_id) {
                        let payload = zcode_warm::payload_of(notification);
                        let finished = finished_turn_actions(goal, payload);
                        match goal_settle(goal, notification) {
                            Some(settle) => {
                                assert(settle == Settle::WithoutComplete);
                                let settling = settle_actions(
                                    goal_after_notification(goal, notification),
                                    settle,
                                );
                                assert(!zcode_warm::hands_over_call(settling[0]));
                                assert(!zcode_warm::hands_over_call(settling[1]));
                            },
                            None => {},
                        }
                    }
                },
                _ => {},
            }
        }
    }
}

/// A goal loop ends with the step that says how it ended, and says so once,
/// last.
pub proof fn law_goal_loop_says_how_it_ended(goal: GoalModel, input: InputModel)
    requires
        goal_open(goal),
    ensures
        goal_after(goal, input).ended <==> goal_actions(goal, input).len() > 0
            && zcode_warm::terminal(goal_actions(goal, input).last()),
        forall|i: int|
            0 <= i < goal_actions(goal, input).len() - 1 ==> !zcode_warm::terminal(
                #[trigger] goal_actions(goal, input)[i],
            ),
{
    lemma_event_types_differ();
}

/// After a turn that does not end the loop, nothing counts as streamed: the
/// next turn announces its own output item, and its reply holds only its own
/// text.
pub proof fn law_each_turn_streams_afresh(goal: GoalModel, notification: JsonModel)
    requires
        notification.str_at("sessionId"@) == Some(goal.session_id),
        turn_finished(notification),
    ensures
        ({
            let next = goal_after(goal, InputModel::Notification(notification));
            &&& next.stream.reply.len() == 0
            &&& !next.stream.started
            &&& next.stream.names == goal.stream.names
        }),
{
    lemma_event_types_differ();
}

proof fn lemma_run_keeps_session(goal: GoalModel, inputs: Seq<InputModel>)
    ensures
        goal_run(goal, inputs).session_id == goal.session_id,
    decreases inputs.len(),
{
    if inputs.len() > 0 {
        lemma_run_keeps_session(goal, inputs.drop_last());
    }
}

/// A whole loop reports the goal complete only if the core verified it.
pub proof fn law_reported_completion_was_verified(
    session_id: Seq<char>,
    request_id: Seq<char>,
    inputs: Seq<InputModel>,
    i: int,
)
    requires
        0 <= i < goal_run_actions(goal_start(session_id, request_id), inputs).len(),
        zcode_warm::hands_over_call(
            goal_run_actions(goal_start(session_id, request_id), inputs)[i],
        ),
    ensures
        exists|k: int|
            0 <= k < inputs.len() && verified_complete(session_id, #[trigger] inputs[k]),
    decreases inputs.len(),
{
    let start = goal_start(session_id, request_id);
    let earlier = goal_run_actions(start, inputs.drop_last());
    let before = goal_run(start, inputs.drop_last());
    if i < earlier.len() {
        law_reported_completion_was_verified(session_id, request_id, inputs.drop_last(), i);
        let k = choose|k: int|
            0 <= k < inputs.drop_last().len() && verified_complete(
                session_id,
                #[trigger] inputs.drop_last()[k],
            );
        assert(verified_complete(session_id, inputs[k]));
    } else {
        lemma_run_keeps_session(start, inputs.drop_last());
        let actions = goal_actions(before, inputs.last());
        assert(zcode_warm::hands_over_call(actions[i - earlier.len()]));
        law_only_verified_completion_is_reported(before, inputs.last());
        assert(verified_complete(session_id, inputs[inputs.len() - 1]));
    }
}

/// A goal is active exactly when a function called `update_goal` is offered,
/// wherever it stands among the tools and whatever else is offered.
pub proof fn law_the_goal_tool_counts_wherever_it_stands(
    before: Seq<ToolSpecModel>,
    after: Seq<ToolSpecModel>,
    tools: Seq<ToolSpecModel>,
)
    ensures
        goal_tools_active(
            before.push(ToolSpecModel::Function { name: "update_goal"@ }) + after,
        ),
        goal_tools_active(tools) <==> exists|i: int|
            0 <= i < tools.len() && #[trigger] tools[i] == (ToolSpecModel::Function {
                name: "update_goal"@,
            }),
{
    let listed = before.push(ToolSpecModel::Function { name: "update_goal"@ }) + after;
    assert(listed[before.len() as int] == (ToolSpecModel::Function { name: "update_goal"@ }));
}

/// The text that the user wrote in a message is its input texts, each one whole
/// and in order; other parts add nothing.
pub proof fn law_input_texts_are_all_taken(
    content: Seq<ContentItemModel>,
    part: ContentItemModel,
)
    ensures
        input_texts(Seq::empty()) == Seq::<Seq<char>>::empty(),
        match part {
            ContentItemModel::InputText { text } => input_texts(content.push(part)) == input_texts(
                content,
            ).push(text),
            _ => input_texts(content.push(part)) == input_texts(content),
        },
{
    assert(content.push(part).drop_last() =~= content);
}

/// The newest message of the user is the one that counts: what came before it
/// is not looked at, and what came after it, if none of it is a message of the
/// user, does not matter.
pub proof fn law_the_newest_user_message_counts(
    earlier: Seq<ResponseItemModel>,
    content: Seq<ContentItemModel>,
    later: Seq<ResponseItemModel>,
)
    requires
        forall|i: int|
            0 <= i < later.len() ==> !(#[trigger] later[i] is Message && later[i]->role
                == "user"@),
    ensures
        newest_user_text(
            earlier.push(ResponseItemModel::Message { role: "user"@, content }) + later,
        ) == Some(text::joined(input_texts(content), "\n"@)),
        newest_user_text(later) is None,
        prompt_objective(later) is None,
        prompt_objective(
            earlier.push(ResponseItemModel::Message { role: "user"@, content }) + later,
        ) == quoted_objective(text::joined(input_texts(content), "\n"@)),
    decreases later.len(),
{
    let message = ResponseItemModel::Message { role: "user"@, content };
    let all = earlier.push(message) + later;
    if later.len() == 0 {
        assert(all.last() == message);
    } else {
        let rest = later.drop_last();
        assert forall|i: int| 0 <= i < rest.len() implies !(#[trigger] rest[i] is Message
            && rest[i]->role == "user"@) by {
            assert(rest[i] == later[i]);
        }
        law_the_newest_user_message_counts(earlier, content, rest);
        assert(all.drop_last() =~= earlier.push(message) + rest);
        assert(all.last() == later[later.len() - 1]);
    }
}

/// The objective is what stands between the first opening mark and the first
/// closing mark behind it, without the white space around it and cut to four
/// thousand characters; a blank one is none, and so is one without its marks.
pub proof fn law_the_objective_stands_between_its_marks(
    before: Seq<char>,
    inner: Seq<char>,
    after: Seq<char>,
    unmarked: Seq<char>,
)
    requires
        forall|i: int|
            0 <= i < before.len() ==> #[trigger] (before + "<objective>"@ + inner
                + "</objective>"@ + after).subrange(i, i + "<objective>"@.len())
                != "<objective>"@,
        forall|i: int|
            0 <= i < inner.len() ==> #[trigger] (inner + "</objective>"@ + after).subrange(
                i,
                i + "</objective>"@.len(),
            ) != "</objective>"@,
        text::first_index(unmarked, "<objective>"@) is None || text::first_index(
            unmarked,
            "</objective>"@,
        ) is None,
    ensures
        quoted_objective(before + "<objective>"@ + inner + "</objective>"@ + after) == (
        if text::blank(inner) {
            None
        } else {
            Some(text::first_chars(text::trimmed(inner), 4000))
        }),
        quoted_objective(unmarked) is None,
{
    let open = "<objective>"@;
    let close = "</objective>"@;
    let prompt = before + open + inner + close + after;
    let rest = inner + close + after;
    text::law_search_finds_the_first_place(prompt, open);
    assert(prompt.subrange(before.len() as int, (before.len() + open.len()) as int) =~= open);
    assert(text::first_index(prompt, open) == Some(before.len() as int));
    assert(prompt.subrange((before.len() + open.len()) as int, prompt.len() as int) =~= rest);
    text::law_search_finds_the_first_place(rest, close);
    assert(rest.subrange(inner.len() as int, (inner.len() + close.len()) as int) =~= close);
    assert(text::first_index(rest, close) == Some(inner.len() as int));
    assert(rest.subrange(0, inner.len() as int) =~= inner);
    if text::first_index(unmarked, open) is Some {
        let at = text::first_index(unmarked, open)->0;
        text::law_search_finds_the_first_place(unmarked, open);
        text::law_search_finds_the_first_place(unmarked, close);
        let tail = unmarked.subrange(at + open.len(), unmarked.len() as int);
        text::law_search_finds_the_first_place(tail, close);
        if text::first_index(tail, close) is Some {
            let len = text::first_index(tail, close)->0;
            let start = at + open.len() + len;
            assert(unmarked.subrange(start, start + close.len()) =~= tail.subrange(
                len,
                len + close.len(),
            ));
        }
    }
}

/// Setting and pausing the goal say so, in the session and for the objective,
/// and say nothing else.
pub proof fn law_goal_requests_say_what_they_ask(
    session_id: Seq<char>,
    objective: Seq<char>,
    key: Seq<char>,
    inner: JsonModel,
)
    ensures
        json::has_member(goal_set_model(session_id, objective), key, inner) <==> {
            ||| key == "sessionId"@ && inner == JsonModel::Str(session_id)
            ||| key == "action"@ && inner == JsonModel::Str("set"@)
            ||| key == "objective"@ && inner == JsonModel::Str(objective)
        },
        json::has_member(goal_pause_model(session_id), key, inner) <==> {
            ||| key == "sessionId"@ && inner == JsonModel::Str(session_id)
            ||| key == "action"@ && inner == JsonModel::Str("pause"@)
        },
{
    reveal_strlit("sessionId");
    reveal_strlit("action");
    reveal_strlit("objective");
    assert("sessionId"@.len() != "action"@.len());
    assert("objective"@.len() != "action"@.len());
    assert("objective"@[0] != "sessionId"@[0]);
}

/// The mirror starts exactly when the core answers that it started the turn; a
/// refusal is passed on, and any other answer is told.
pub proof fn law_the_mirror_starts_only_when_the_core_says_so(
    answer: JsonModel,
    message: Seq<char>,
)
    ensures
        mirror_refusal(Ok(answer)) is None <==> json::has_member(
            answer,
            "startedTurn"@,
            JsonModel::Bool(true),
        ),
        mirror_refusal(Ok(answer)) matches Some(why) ==> why
            == "core accepted the goal but did not start the goal loop"@,
        mirror_refusal(Err(message)) == Some(message),
{
}

/// A goal is settled as complete by the status `complete`, and without
/// completion by `paused`, `budget_limited` or, where none of these is the
/// status, by having been cleared; nothing else settles it.
pub proof fn law_only_these_updates_settle_a_goal(payload: JsonModel)
    ensures
        ({
            let status = json::str_in(payload.get("target"@), "status"@);
            let settled = settled_by(Some(payload));
            &&& settled == Some(Settle::Complete) <==> status == Some("complete"@)
            &&& settled == Some(Settle::WithoutComplete) <==> status != Some("complete"@) && (status
                == Some("paused"@) || status == Some("budget_limited"@) || payload.str_at(
                "action"@,
            ) == Some("cleared"@))
            &&& settled_by(None) is None
        }),
{
    reveal_strlit("complete");
    reveal_strlit("paused");
    reveal_strlit("budget_limited");
    assert("complete"@.len() != "paused"@.len());
    assert("complete"@.len() != "budget_limited"@.len());
}

/// Text, tool calls, failures, events of other sessions and gaps are collected
/// as in any turn, with the same actions and the same effect on what has been
/// streamed.
pub proof fn law_a_goal_loop_streams_like_a_turn(
    goal: GoalModel,
    turn: zcode_warm::TurnModel,
    input: InputModel,
)
    requires
        turn.session_id == goal.session_id,
        turn.stream == goal.stream,
        turn.ended == goal.ended,
        !goal.ended,
        goal.turns_seen < 12,
        !(input is Elapsed),
        input is Notification ==> input->Notification_0.str_at("type"@) != Some("turn.completed"@)
            && input->Notification_0.str_at("type"@) != Some("session.updated"@),
    ensures
        goal_actions(goal, input) == zcode_warm::turn_actions(turn, input),
        goal_after(goal, input).stream == zcode_warm::turn_after(turn, input).stream,
        goal_after(goal, input).ended == zcode_warm::turn_after(turn, input).ended,
        goal_after(goal, input).turns_seen == goal.turns_seen,
        goal_after(goal, input).usage == goal.usage,
        goal_after(goal, input).session_id == goal.session_id,
        goal_after(goal, input).request_id == goal.request_id,
{
    lemma_event_types_differ();
}

/// Silence beyond the idle window gives the child up and fails the loop.
pub proof fn law_a_goal_loop_does_not_wait_for_ever(goal: GoalModel)
    ensures
        goal_after(goal, InputModel::Elapsed).ended,
        goal_actions(goal, InputModel::Elapsed) == seq![
            ActionModel::Kill("mirrored goal turn stalled"@),
            ActionModel::Fail(
                ApiErrorModel::Stream(
                    "ZCode warm goal loop stalled: no session events before the idle window elapsed"@,
                ),
            ),
        ],
{
}

/// A turn of the loop that finishes below the cap says its reply, where it has
/// one, counts as one more turn, leaves its token counts, and lets the loop go
/// on. One that stops otherwise ends the loop with the error it would end any
/// turn with, and no reply.
pub proof fn law_a_finished_turn_lets_the_loop_go_on(
    goal: GoalModel,
    input: InputModel,
    payload: JsonModel,
    reply: Seq<char>,
)
    requires
        !goal.ended,
        goal.turns_seen < 12,
        zcode_warm::notifies(goal.session_id, input, "turn.completed"@, payload),
        goal.stream.reply.len() > 0 ==> reply == goal.stream.reply,
        goal.stream.reply.len() == 0 ==> (payload.str_at("response"@) == Some(reply) || (
        payload.str_at("response"@) is None && reply.len() == 0)),
    ensures
        ({
            let actions = goal_actions(goal, input);
            let after = goal_after(goal, input);
            let result_type = payload.str_at("resultType"@);
            let finished = result_type is None || result_type == Some("success"@);
            &&& finished && goal.turns_seen + 1 < 12 ==> {
                &&& !after.ended
                &&& after.turns_seen == goal.turns_seen + 1
                &&& after.usage == zcode_warm::turn_usage(payload)
                &&& after.session_id == goal.session_id
                &&& after.request_id == goal.request_id
                &&& reply.len() == 0 ==> actions.len() == 0
                &&& reply.len() > 0 ==> actions == seq![
                    ActionModel::EmitOrEnd(EventModel::OutputItemDone(assistant_model(reply))),
                ]
            }
            &&& finished && goal.turns_seen + 1 == 12 ==> {
                &&& after.ended
                &&& reply.len() > 0 ==> actions.len() == 5 && actions[0] == ActionModel::EmitOrEnd(
                    EventModel::OutputItemDone(assistant_model(reply)),
                )
                &&& reply.len() == 0 ==> actions.len() == 4
                &&& actions.last() == ActionModel::Emit(
                    EventModel::Completed {
                        response_id: goal.request_id,
                        token_usage: Some(zcode_warm::turn_usage(payload)),
                        end_turn: Some(true),
                    },
                )
            }
            &&& !finished ==> {
                &&& after.ended
                &&& actions == seq![
                    ActionModel::Fail(zcode_warm::completed_turn_error(result_type->0)->0),
                ]
            }
        }),
{
    lemma_event_types_differ();
    zcode_warm::law_only_deterministic_stops_are_final(zcode_warm::result_type_of(payload));
    if reply.len() == 0 {
        assert(reply =~= Seq::<char>::empty());
    }
    let result_type = payload.str_at("resultType"@);
    if (result_type is None || result_type == Some("success"@)) && goal.turns_seen + 1 < 12 {
        let actions = finished_turn_actions(goal, payload);
        assert(actions + Seq::<ActionModel>::empty() =~= actions);
    }
}

/// An update that settles the goal ends the loop: a verified completion is
/// reported by the call that marks the goal complete, anything else stops the
/// running turn; then the response is completed under its own id with the
/// counts of the last finished turn. An update that settles nothing changes
/// nothing.
pub proof fn law_a_settled_goal_ends_the_loop(goal: GoalModel, input: InputModel)
    requires
        !goal.ended,
        goal.turns_seen < 12,
        input is Notification,
        input->Notification_0.str_at("sessionId"@) == Some(goal.session_id),
        input->Notification_0.str_at("type"@) == Some("session.updated"@),
    ensures
        ({
            let settled = settled_by(input->Notification_0.get("payload"@));
            let actions = goal_actions(goal, input);
            let after = goal_after(goal, input);
            let completed = ActionModel::Emit(
                EventModel::Completed {
                    response_id: goal.request_id,
                    token_usage: Some(goal.usage),
                    end_turn: Some(true),
                },
            );
            &&& after == GoalModel { ended: settled is Some, ..goal }
            &&& settled is None ==> actions.len() == 0
            &&& settled == Some(Settle::Complete) ==> actions == seq![
                ActionModel::Emit(
                    EventModel::OutputItemDone(
                        ResponseItemModel::FunctionCall {
                            name: "update_goal"@,
                            arguments: "{\"status\":\"complete\"}"@,
                            encrypted_function_args: Some(Seq::empty()),
                            call_id: "zcode_goal_"@ + goal.request_id,
                        },
                    ),
                ),
                completed,
            ]
            &&& settled == Some(Settle::WithoutComplete) ==> actions == seq![
                ActionModel::StopTurn,
                completed,
            ]
        }),
{
    lemma_event_types_differ();
}

/// A loop starts with no turn finished, no tokens counted and nothing streamed.
pub proof fn law_a_goal_loop_starts_afresh(session_id: Seq<char>, request_id: Seq<char>)
    ensures
        ({
            let goal = goal_start(session_id, request_id);
            &&& goal.session_id == session_id
            &&& goal.request_id == request_id
            &&& goal.turns_seen == 0
            &&& goal.usage == no_tokens()
            &&& goal.stream == zcode_warm::stream_start()
            &&& !goal.ended
        }),
{
}

/// With mirroring switched on and `update_goal` offered anywhere among the
/// tools, the objective that the newest message of the user quotes is the one
/// that is mirrored. Without either, none is.
pub proof fn law_an_offered_goal_is_mirrored(
    mirror_value: Option<Seq<char>>,
    tools: Seq<ToolSpecModel>,
    earlier: Seq<ResponseItemModel>,
    content: Seq<ContentItemModel>,
    later: Seq<ResponseItemModel>,
)
    requires
        forall|i: int|
            0 <= i < later.len() ==> !(#[trigger] later[i] is Message && later[i]->role
                == "user"@),
    ensures
        ({
            let input = earlier.push(ResponseItemModel::Message { role: "user"@, content }) + later;
            let objective = mirrored_objective(mirror_value, tools, input);
            let offered = exists|i: int|
                0 <= i < tools.len() && #[trigger] tools[i] == (ToolSpecModel::Function {
                    name: "update_goal"@,
                });
            &&& text::switched_on(mirror_value) && offered ==> objective == quoted_objective(
                text::joined(input_texts(content), "\n"@),
            )
            &&& !text::switched_on(mirror_value) || !offered ==> objective is None
            &&& mirrored_objective(mirror_value, tools, later) is None
        }),
{
    law_the_newest_user_message_counts(earlier, content, later);
    law_the_goal_tool_counts_wherever_it_stands(Seq::empty(), Seq::empty(), tools);
}

/// Asked whether a goal is active, the library says so exactly when one of the
/// tools, whichever it is, is a function named `update_goal`.
pub proof fn law_any_offered_goal_tool_makes_the_goal_active(tools: &[ToolSpec], active: bool)
    requires
        call_ensures(zcode_goal_tools_active, (tools,), active),
    ensures
        forall|i: int|
            0 <= i < tools@.len() && (#[trigger] tools@[i]) is Function && tools@[i]->name@
                == "update_goal"@ ==> active,
        active ==> exists|i: int|
            0 <= i < tools@.len() && (#[trigger] tools@[i]) is Function && tools@[i]->name@
                == "update_goal"@,
{
    let model = tools.deep_view();
    law_the_goal_tool_counts_wherever_it_stands(Seq::empty(), Seq::empty(), model);
    assert forall|i: int|
        0 <= i < tools@.len() && (#[trigger] tools@[i]) is Function && tools@[i]->name@
            == "update_goal"@ implies active by {
        assert(model[i] == tools@[i].deep_view());
    }
    if active {
        let i = choose|i: int|
            0 <= i < model.len() && #[trigger] model[i] == (ToolSpecModel::Function {
                name: "update_goal"@,
            });
        assert(model[i] == tools@[i].deep_view());
        assert(tools@[i] is Function);
    }
}

/// The mirror is on exactly for the values that switch a feature on, starts
/// exactly where nothing refuses it, and fails with what refuses it.
pub proof fn law_the_mirror_starts_or_says_why(
    value: Option<&str>,
    enabled: bool,
    set: Result<Json, String>,
    started: Result<(), String>,
)
    requires
        call_ensures(goal_mirror_enabled_from_value, (value,), enabled),
        call_ensures(mirror_start, (set,), started),
    ensures
        enabled <==> text::switched_on(value.deep_view()),
        started is Ok <==> mirror_refusal(json::read_model(set)) is None,
        started matches Err(message) ==> mirror_refusal(json::read_model(set)) == Some(message@),
{
}

/// A loop is open until it ends, for at most twelve turns; a turn finishes
/// normally exactly when it completes and reports no other result than success.
pub proof fn law_a_loop_is_open_for_twelve_turns(goal: GoalModel, notification: JsonModel)
    ensures
        goal_open(goal) <==> !goal.ended && goal.turns_seen < 12,
        turn_finished(notification) <==> {
            let result_type = json::str_in(notification.get("payload"@), "resultType"@);
            &&& notification.str_at("type"@) == Some("turn.completed"@)
            &&& result_type is None || result_type == Some("success"@)
        },
        MAX_MIRRORED_GOAL_TURNS == 12,
{
    let payload = zcode_warm::payload_of(notification);
    zcode_warm::law_only_deterministic_stops_are_final(zcode_warm::result_type_of(payload));
}

/// No input changes whose loop it is or under which id its response is known.
pub proof fn law_a_goal_loop_keeps_its_ids(goal: GoalModel, input: InputModel)
    ensures
        goal_after(goal, input).session_id == goal.session_id,
        goal_after(goal, input).request_id == goal.request_id,
{
}

/// The objective is read off the newest message of the user, and is mirrored
/// only where mirroring is on and the goal tool is offered.
pub proof fn law_the_objective_is_read_off_the_prompt(
    mirror_value: Option<&str>,
    tools: &[ToolSpec],
    input: &[ResponseItem],
    quoted: Option<String>,
    mirrored: Option<String>,
)
    requires
        call_ensures(goal_objective_from_prompt, (input,), quoted),
        call_ensures(mirrored_goal_objective_for, (mirror_value, tools, input), mirrored),
    ensures
        quoted.deep_view() == prompt_objective(input.deep_view()),
        mirrored is Some ==> mirrored.deep_view() == quoted.deep_view(),
        mirrored is Some <==> quoted is Some && text::switched_on(mirror_value.deep_view())
            && goal_tools_active(tools.deep_view()),
{
}

/// The goal is set and paused in its session, and an update settles it as its
/// payload says.
pub proof fn law_the_goal_is_asked_for_and_settled(
    session_id: &str,
    objective: &str,
    set: Json,
    pause: Json,
    payload: Option<&Json>,
    settle: Option<Settle>,
)
    requires
        call_ensures(goal_set_params, (session_id, objective), set),
        call_ensures(goal_pause_params, (session_id,), pause),
        call_ensures(settle_from_update, (payload,), settle),
    ensures
        set@ == goal_set_model(session_id@, objective@),
        pause@ == goal_pause_model(session_id@),
        settle == settled_by(payload.deep_view()),
{
}

/// A collector does with an input what its goal loop does with it, and nothing
/// else.
pub proof fn law_a_collector_follows_its_goal_loop(
    session_id: &str,
    request_id: &str,
    fresh: GoalCollector,
    collector: &mut GoalCollector,
    input: CollectorInput,
    actions: Vec<CollectorAction>,
)
    requires
        call_ensures(GoalCollector::new, (session_id, request_id), fresh),
        call_ensures(GoalCollector::step, (collector, input), actions),
    ensures
        fresh@ == goal_start(session_id@, request_id@),
        final(collector)@ == goal_after(old(collector)@, input.deep_view()),
        actions.deep_view() == goal_actions(old(collector)@, input.deep_view()),
{
}

} // verus!
