//! Mapping of `session/event` tool-call notifications to display-only tool
//! activity.
//!
//! Tool calls execute inside the warm core's own agent loop, so they are never
//! handed on as function calls: the host would execute them again. These
//! events only carry live status for the user interface.

use crate::json::get_in;
use crate::json::has_member;
use crate::json::json_at;
use crate::json::json_text;
use crate::json::str_in;
use crate::json::text_at;
use crate::json::Json;
use crate::json::JsonModel;
use crate::protocol::ActivityModel;
use crate::protocol::BridgeToolActivityEvent;
use crate::protocol::BridgeToolActivityStatus;
use crate::text::first_chars;
use crate::text::str_eq;
use crate::text::take_chars;
use vstd::prelude::*;

verus! {

broadcast use vstd::string::group_string_axioms;

/// Detail previews are display-only; the cap keeps a chatty tool output or a
/// large tool input from flooding the event stream.
pub const DETAIL_PREVIEW_CAP: usize = 200;

/// The tool name last announced for each tool call.
#[derive(Debug)]
pub struct ToolNames {
    entries: Vec<(String, String)>,
}

spec fn names_map(entries: Seq<(String, String)>) -> Map<Seq<char>, Seq<char>>
    decreases entries.len(),
{
    if entries.len() == 0 {
        Map::empty()
    } else {
        names_map(entries.drop_last()).insert(entries.last().0@, entries.last().1@)
    }
}

impl View for ToolNames {
    type V = Map<Seq<char>, Seq<char>>;

    closed spec fn view(&self) -> Map<Seq<char>, Seq<char>> {
        names_map(self.entries@)
    }
}

/// The name that `names` has for a call, if it has one.
pub open spec fn name_of(names: Map<Seq<char>, Seq<char>>, call_id: Seq<char>) -> Option<
    Seq<char>,
> {
    if names.dom().contains(call_id) {
        Some(names[call_id])
    } else {
        None
    }
}

impl ToolNames {
    /// No call announced yet.
    pub fn new() -> (names: ToolNames)
        ensures
            names@ == Map::<Seq<char>, Seq<char>>::empty(),
    {
        ToolNames { entries: Vec::new() }
    }

    /// Remembers the name of a call, replacing an earlier one.
    pub fn insert(&mut self, call_id: &str, tool: &str)
        ensures
            final(self)@ == old(self)@.insert(call_id@, tool@),
    {
        let ghost before = self.entries@;
        self.entries.push((call_id.to_owned(), tool.to_owned()));
        assert(self.entries@.drop_last() =~= before);
    }

    /// The name remembered for a call.
    pub fn get(&self, call_id: &str) -> (tool: Option<&str>)
        ensures
            tool.deep_view() == name_of(self@, call_id@),
    {
        let mut len: usize = self.entries.len();
        assert(self.entries@.take(self.entries@.len() as int) =~= self.entries@);
        while len > 0
            invariant
                len <= self.entries@.len(),
                name_of(self@, call_id@) == name_of(
                    names_map(self.entries@.take(len as int)),
                    call_id@,
                ),
            decreases len,
        {
            let ghost prefix = self.entries@.take(len as int);
            assert(prefix.drop_last() =~= self.entries@.take(len - 1));
            assert(prefix.last() == self.entries@[len - 1]);
            if str_eq(self.entries[len - 1].0.as_str(), call_id) {
                return Some(self.entries[len - 1].1.as_str());
            }
            len = len - 1;
        }
        None
    }
}

/// A display preview of `text`.
pub open spec fn preview(text: Seq<char>) -> Seq<char> {
    first_chars(text, DETAIL_PREVIEW_CAP as nat)
}

/// A display preview of a text that may be missing.
pub open spec fn preview_of(text: Option<Seq<char>>) -> Option<Seq<char>> {
    match text {
        Some(text) => Some(preview(text)),
        None => None,
    }
}

/// The detail that shows the input of a scheduled call, given its JSON text.
pub open spec fn shown_input(input: Seq<char>) -> Option<Seq<char>> {
    if preview(input).len() > 0 {
        Some(preview(input))
    } else {
        None
    }
}

/// A report over models.
pub open spec fn report_model(
    report: Option<(BridgeToolActivityStatus, Option<String>)>,
) -> Option<(BridgeToolActivityStatus, Option<Seq<char>>)> {
    match report {
        Some((status, detail)) => Some((status, detail.deep_view())),
        None => None,
    }
}

/// What a tool-call event of type `event_type` reports, by its payload.
pub open spec fn reported(event_type: Seq<char>, payload: JsonModel) -> Option<
    (BridgeToolActivityStatus, Option<Seq<char>>),
> {
    if event_type == "tool_call_scheduled"@ {
        Some(
            (
                BridgeToolActivityStatus::Started,
                match payload.get("input"@) {
                    Some(input) => shown_input(json_text(input)),
                    None => None,
                },
            ),
        )
    } else if event_type == "tool_call_result"@ {
        let result = payload.get("result"@);
        let failed = match get_in(result, "success"@) {
            Some(success) => success.as_bool() == Some(false),
            None => false,
        };
        let detail = match str_in(result, "content"@) {
            Some(content) => if content.len() > 0 {
                Some(preview(content))
            } else {
                preview_of(str_in(get_in(result, "error"@), "message"@))
            },
            None => preview_of(str_in(get_in(result, "error"@), "message"@)),
        };
        if failed {
            Some((BridgeToolActivityStatus::Failed, detail))
        } else {
            Some((BridgeToolActivityStatus::Completed, detail))
        }
    } else if event_type == "tool_call_error"@ {
        Some(
            (
                BridgeToolActivityStatus::Failed,
                preview_of(str_in(payload.get("error"@), "message"@)),
            ),
        )
    } else {
        None
    }
}

/// The tool activity that a notification carries, given the names announced
/// before it.
pub open spec fn activity_of(
    notification: JsonModel,
    names: Map<Seq<char>, Seq<char>>,
) -> Option<ActivityModel> {
    match (
        notification.str_at("type"@),
        notification.get("payload"@),
        str_in(notification.get("payload"@), "toolCallId"@),
    ) {
        (Some(event_type), Some(payload), Some(call_id)) => match reported(event_type, payload) {
            Some((status, detail)) => Some(
                ActivityModel {
                    call_id,
                    tool: match payload.str_at("toolName"@) {
                        Some(tool) => tool,
                        None => match name_of(names, call_id) {
                            Some(tool) => tool,
                            None => "unknown"@,
                        },
                    },
                    status,
                    detail,
                },
            ),
            None => None,
        },
        _ => None,
    }
}

/// The names announced once a notification has been looked at: one that types
/// itself and names both its call and its tool adds that name.
pub open spec fn names_after(
    notification: JsonModel,
    names: Map<Seq<char>, Seq<char>>,
) -> Map<Seq<char>, Seq<char>> {
    match (
        notification.str_at("type"@),
        str_in(notification.get("payload"@), "toolCallId"@),
        str_in(notification.get("payload"@), "toolName"@),
    ) {
        (Some(_), Some(call_id), Some(tool)) => names.insert(call_id, tool),
        _ => names,
    }
}

fn bounded_preview(text: &str) -> (kept: String)
    ensures
        kept@ == preview(text@),
{
    take_chars(text, DETAIL_PREVIEW_CAP)
}

/// The detail that shows the input of a scheduled call, given its JSON text.
pub fn input_detail(input: &str) -> (detail: Option<String>)
    ensures
        detail.deep_view() == shown_input(input@),
{
    let shown = bounded_preview(input);
    if shown.as_str().is_empty() {
        None
    } else {
        Some(shown)
    }
}

fn opt_preview(text: Option<&str>) -> (kept: Option<String>)
    ensures
        kept.deep_view() == preview_of(text.deep_view()),
{
    match text {
        Some(text) => Some(bounded_preview(text)),
        None => None,
    }
}

fn report(event_type: &str, payload: &Json) -> (status: Option<
    (BridgeToolActivityStatus, Option<String>),
>)
    ensures
        report_model(status) == reported(event_type@, payload@),
{
    if str_eq(event_type, "tool_call_scheduled") {
        let detail = match payload.get("input") {
            Some(input) => input_detail(input.render().as_str()),
            None => None,
        };
        return Some((BridgeToolActivityStatus::Started, detail));
    }
    if str_eq(event_type, "tool_call_result") {
        let result = payload.get("result");
        let failed = match json_at(result, "success") {
            Some(success) => match success.as_bool() {
                Some(success) => !success,
                None => false,
            },
            None => false,
        };
        let content = text_at(result, "content");
        let detail = match content {
            Some(content) => if content.is_empty() {
                opt_preview(text_at(json_at(result, "error"), "message"))
            } else {
                Some(bounded_preview(content))
            },
            None => opt_preview(text_at(json_at(result, "error"), "message")),
        };
        return if failed {
            Some((BridgeToolActivityStatus::Failed, detail))
        } else {
            Some((BridgeToolActivityStatus::Completed, detail))
        };
    }
    if str_eq(event_type, "tool_call_error") {
        let detail = opt_preview(text_at(payload.get("error"), "message"));
        return Some((BridgeToolActivityStatus::Failed, detail));
    }
    None
}

/// The tool activity carried by one `session/event` notification, or `None`
/// when it is not a mapped tool-call event.
///
/// Only `tool_call_scheduled` reliably names the tool, so `tool_names`
/// remembers each call's name for the later result and error events, which
/// may omit it.
pub fn bridge_tool_activity_from_notification(
    notification: &Json,
    tool_names: &mut ToolNames,
) -> (activity: Option<BridgeToolActivityEvent>)
    ensures
        activity.deep_view() == activity_of(notification@, old(tool_names)@),
        final(tool_names)@ == names_after(notification@, old(tool_names)@),
{
    let event_type = match notification.str_at("type") {
        Some(event_type) => event_type,
        None => return None,
    };
    let payload = match notification.get("payload") {
        Some(payload) => payload,
        None => return None,
    };
    let call_id = match payload.str_at("toolCallId") {
        Some(call_id) => call_id,
        None => return None,
    };
    let tool = match payload.str_at("toolName") {
        Some(tool) => {
            tool_names.insert(call_id, tool);
            tool.to_owned()
        },
        None => match tool_names.get(call_id) {
            Some(tool) => tool.to_owned(),
            None => "unknown".to_owned(),
        },
    };
    match report(event_type, payload) {
        Some((status, detail)) => Some(
            BridgeToolActivityEvent { call_id: call_id.to_owned(), tool, status, detail },
        ),
        None => None,
    }
}

/// A preview is the start of the text it shows, and no longer than its cap.
pub proof fn law_previews_are_bounded(text: Seq<char>)
    ensures
        preview(text).len() <= DETAIL_PREVIEW_CAP,
        preview(text).is_prefix_of(text),
{
}

/// The names announced by several notifications.
pub open spec fn names_run(notifications: Seq<JsonModel>) -> Map<Seq<char>, Seq<char>>
    decreases notifications.len(),
{
    if notifications.len() == 0 {
        Map::empty()
    } else {
        names_after(notifications.last(), names_run(notifications.drop_last()))
    }
}

/// Whether a notification types itself and names a call and the call's tool.
pub open spec fn names_tool(notification: JsonModel, call_id: Seq<char>) -> bool {
    &&& notification.str_at("type"@) is Some
    &&& str_in(notification.get("payload"@), "toolCallId"@) == Some(call_id)
    &&& str_in(notification.get("payload"@), "toolName"@) is Some
}

/// The name that the last notification to name a call's tool gives it.
pub open spec fn last_name(notifications: Seq<JsonModel>, call_id: Seq<char>) -> Option<Seq<char>>
    decreases notifications.len(),
{
    if notifications.len() == 0 {
        None
    } else if names_tool(notifications.last(), call_id) {
        str_in(notifications.last().get("payload"@), "toolName"@)
    } else {
        last_name(notifications.drop_last(), call_id)
    }
}

proof fn lemma_names_are_the_last(notifications: Seq<JsonModel>, call_id: Seq<char>)
    ensures
        name_of(names_run(notifications), call_id) == last_name(notifications, call_id),
    decreases notifications.len(),
{
    if notifications.len() > 0 {
        lemma_names_are_the_last(notifications.drop_last(), call_id);
    }
}

/// Whatever came before it, a tool call's activity is shown under the name that
/// its call was given last, by its own notification or an earlier one, and as
/// `unknown` if it was given none. A result or an error that does not name its
/// tool is so shown under the name that the call was scheduled with.
pub proof fn law_scheduled_name_is_remembered(earlier: Seq<JsonModel>, notification: JsonModel)
    ensures
        activity_of(notification, names_run(earlier)) matches Some(activity) ==> activity.tool == (
        match last_name(earlier.push(notification), activity.call_id) {
            Some(tool) => tool,
            None => "unknown"@,
        }),
{
    if let Some(activity) = activity_of(notification, names_run(earlier)) {
        assert(earlier.push(notification).drop_last() =~= earlier);
        lemma_names_are_the_last(earlier, activity.call_id);
    }
}

/// Whether a notification has a type, and a payload that names a call.
pub open spec fn tells_of_call(
    notification: JsonModel,
    event_type: Seq<char>,
    payload: JsonModel,
    call_id: Seq<char>,
) -> bool {
    &&& notification.str_at("type"@) == Some(event_type)
    &&& notification.get("payload"@) == Some(payload)
    &&& payload.str_at("toolCallId"@) == Some(call_id)
}

proof fn lemma_tool_types_differ()
    ensures
        "tool_call_scheduled"@ != "tool_call_result"@,
        "tool_call_scheduled"@ != "tool_call_error"@,
        "tool_call_result"@ != "tool_call_error"@,
{
    reveal_strlit("tool_call_scheduled");
    reveal_strlit("tool_call_result");
    reveal_strlit("tool_call_error");
    assert("tool_call_scheduled"@[10] != "tool_call_result"@[10]);
    assert("tool_call_scheduled"@[10] != "tool_call_error"@[10]);
    assert("tool_call_result"@[10] != "tool_call_error"@[10]);
}

/// A notification is shown as activity exactly when it is of one of the three
/// tool-call types and names its call, and then under that call.
pub proof fn law_every_tool_call_is_shown(
    notification: JsonModel,
    event_type: Seq<char>,
    payload: JsonModel,
    call_id: Seq<char>,
    names: Map<Seq<char>, Seq<char>>,
)
    ensures
        tells_of_call(notification, event_type, payload, call_id) ==> {
            &&& activity_of(notification, names) is Some <==> {
                ||| event_type == "tool_call_scheduled"@
                ||| event_type == "tool_call_result"@
                ||| event_type == "tool_call_error"@
            }
            &&& activity_of(notification, names) matches Some(activity) ==> activity.call_id
                == call_id
        },
        activity_of(notification, names) is Some ==> notification.str_at("type"@) is Some
            && notification.get("payload"@) is Some && notification.get("payload"@)->0.str_at(
            "toolCallId"@,
        ) is Some,
{
}

/// A scheduled call has started, and shows the start of its input's JSON text;
/// without input, or where that text is empty, it shows nothing.
pub proof fn law_a_scheduled_call_has_started(
    notification: JsonModel,
    payload: JsonModel,
    call_id: Seq<char>,
    names: Map<Seq<char>, Seq<char>>,
)
    requires
        tells_of_call(notification, "tool_call_scheduled"@, payload, call_id),
    ensures
        activity_of(notification, names) matches Some(activity) && {
            let input = payload.get("input"@);
            &&& activity.status == BridgeToolActivityStatus::Started
            &&& input is None ==> activity.detail is None
            &&& input is Some && json_text(input->0).len() == 0 ==> activity.detail is None
            &&& input is Some && json_text(input->0).len() > 0 ==> activity.detail == Some(
                first_chars(json_text(input->0), 200),
            )
        },
{
    lemma_tool_types_differ();
}

/// A call that gave a result has failed exactly when the result's `success` is
/// the value false, whatever else the result holds, and has completed
/// otherwise. It shows the start of its content, or where that is empty or
/// missing, of its error's message, if it has one.
pub proof fn law_a_result_fails_only_by_its_success(
    notification: JsonModel,
    payload: JsonModel,
    call_id: Seq<char>,
    names: Map<Seq<char>, Seq<char>>,
)
    requires
        tells_of_call(notification, "tool_call_result"@, payload, call_id),
    ensures
        activity_of(notification, names) matches Some(activity) && {
            let result = payload.get("result"@);
            let failed = result is Some && result->0.get("success"@) == Some(
                JsonModel::Bool(false),
            );
            let content = str_in(result, "content"@);
            let message = str_in(get_in(result, "error"@), "message"@);
            &&& failed ==> activity.status == BridgeToolActivityStatus::Failed
            &&& !failed ==> activity.status == BridgeToolActivityStatus::Completed
            &&& content is Some && content->0.len() > 0 ==> activity.detail == Some(
                first_chars(content->0, 200),
            )
            &&& (content is None || content->0.len() == 0) && message is Some ==> activity.detail
                == Some(first_chars(message->0, 200))
            &&& (content is None || content->0.len() == 0) && message is None ==> activity.detail
                is None
        },
{
    lemma_tool_types_differ();
}

/// A call that went wrong has failed, and shows the start of its error's
/// message, if it has one.
pub proof fn law_an_error_is_a_failure(
    notification: JsonModel,
    payload: JsonModel,
    call_id: Seq<char>,
    names: Map<Seq<char>, Seq<char>>,
)
    requires
        tells_of_call(notification, "tool_call_error"@, payload, call_id),
    ensures
        activity_of(notification, names) matches Some(activity) && {
            let message = str_in(payload.get("error"@), "message"@);
            &&& activity.status == BridgeToolActivityStatus::Failed
            &&& message is Some ==> activity.detail == Some(first_chars(message->0, 200))
            &&& message is None ==> activity.detail is None
        },
{
    lemma_tool_types_differ();
}

/// A notification that types itself and names its call and tool is remembered
/// under its call, and every other call keeps its name; any other notification
/// changes no name.
pub proof fn law_a_named_call_is_remembered(
    notification: JsonModel,
    names: Map<Seq<char>, Seq<char>>,
    other: Seq<char>,
)
    ensures
        ({
            let payload = notification.get("payload"@);
            let call_id = str_in(payload, "toolCallId"@);
            let tool = str_in(payload, "toolName"@);
            let after = names_after(notification, names);
            let named = notification.str_at("type"@) is Some && call_id is Some && tool is Some;
            &&& named ==> name_of(after, call_id->0) == tool
            &&& !(named && call_id == Some(other)) ==> name_of(after, other) == name_of(
                names,
                other,
            )
        }),
{
}

/// Asked for the activity of a tool's result, the library reports a failure
/// exactly when the result says so itself, whatever it shows.
pub proof fn law_reporting_a_result_follows_its_success(
    notification: &Json,
    tool_names: &mut ToolNames,
    activity: Option<BridgeToolActivityEvent>,
    payload: JsonModel,
    call_id: Seq<char>,
)
    requires
        call_ensures(
            bridge_tool_activity_from_notification,
            (notification, tool_names),
            activity,
        ),
        tells_of_call(notification@, "tool_call_result"@, payload, call_id),
    ensures
        activity is Some,
        activity->0.call_id@ == call_id,
        activity->0.status == BridgeToolActivityStatus::Failed <==> payload.get("result"@) is Some
            && has_member(
            payload.get("result"@)->0,
            "success"@,
            JsonModel::Bool(false),
        ),
        activity->0.status != BridgeToolActivityStatus::Failed ==> activity->0.status
            == BridgeToolActivityStatus::Completed,
{
    law_a_result_fails_only_by_its_success(notification@, payload, call_id, old(tool_names)@);
    law_every_tool_call_is_shown(
        notification@,
        "tool_call_result"@,
        payload,
        call_id,
        old(tool_names)@,
    );
}

/// Asked for the activity of any notification, the library gives the one it
/// carries, if it carries one, and remembers the name that it gives its call.
pub proof fn law_an_activity_is_what_its_notification_carries(
    notification: &Json,
    tool_names: &mut ToolNames,
    activity: Option<BridgeToolActivityEvent>,
    input: &str,
    detail: Option<String>,
)
    requires
        call_ensures(
            bridge_tool_activity_from_notification,
            (notification, tool_names),
            activity,
        ),
        call_ensures(input_detail, (input,), detail),
    ensures
        activity.deep_view() == activity_of(notification@, old(tool_names)@),
        final(tool_names)@ == names_after(notification@, old(tool_names)@),
        detail is None <==> input@.len() == 0,
        detail matches Some(shown) ==> shown@ == first_chars(input@, 200),
{
}

} // verus!
