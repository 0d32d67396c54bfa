//! Live status for tool calls that execute inside the bridged core.
//!
//! The tool runs on the far side of the bridge, so there is no item of its own
//! to show in the history; the activity surfaces through the status indicator
//! instead.

use crate::protocol::BridgeToolActivityStatus;
use vstd::prelude::*;

verus! {

broadcast use vstd::string::group_string_axioms;

/// How the status details are shown.
#[derive(Clone, Copy, Debug, PartialEq, Eq, Structural)]
pub enum StatusDetailsCapitalization {
    CapitalizeFirst,
    /// Verbatim content, whose casing is never rewritten.
    Preserve,
}

/// What the status indicator is set to.
#[derive(Debug, PartialEq)]
pub struct StatusUpdate {
    pub header: String,
    pub details: Option<String>,
    pub capitalization: StatusDetailsCapitalization,
}

/// The status that a tool activity brings: the running tool with its input, or
/// the generic one once the tool is through.
pub fn status_for_activity(
    status: BridgeToolActivityStatus,
    tool: &str,
    detail: Option<String>,
) -> (update: StatusUpdate)
    ensures
        status == BridgeToolActivityStatus::Started ==> {
            &&& update.header@ == "Running "@ + tool@
            &&& update.details == detail
            &&& update.capitalization == StatusDetailsCapitalization::Preserve
        },
        status != BridgeToolActivityStatus::Started ==> {
            &&& update.header@ == "Working"@
            &&& update.details is None
            &&& update.capitalization == StatusDetailsCapitalization::CapitalizeFirst
        },
{
    match status {
        BridgeToolActivityStatus::Started => StatusUpdate {
            header: "Running ".to_owned().concat(tool),
            details: detail,
            capitalization: StatusDetailsCapitalization::Preserve,
        },
        BridgeToolActivityStatus::Completed | BridgeToolActivityStatus::Failed => StatusUpdate {
            header: "Working".to_owned(),
            details: None,
            capitalization: StatusDetailsCapitalization::CapitalizeFirst,
        },
    }
}

/// A tool that has started is shown as running, by its name and with its detail
/// verbatim; one that is through shows nothing of its own.
pub proof fn law_only_a_running_tool_is_shown(
    status: BridgeToolActivityStatus,
    tool: &str,
    detail: Option<String>,
    update: StatusUpdate,
)
    requires
        call_ensures(status_for_activity, (status, tool, detail), update),
    ensures
        status is Started ==> {
            &&& update.header@ == "Running "@ + tool@
            &&& update.details == detail
            &&& update.capitalization is Preserve
        },
        !(status is Started) ==> {
            &&& update.header@ == "Working"@
            &&& update.details is None
            &&& update.capitalization is CapitalizeFirst
        },
{
}

} // verus!
