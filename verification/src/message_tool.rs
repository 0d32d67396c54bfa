//! Delivery of messages between agents: what may be sent, and how a failed
//! delivery is reported to the model.

use crate::text;
use crate::text::is_blank;
use crate::text::join;
use vstd::prelude::*;

verus! {

broadcast use vstd::string::group_string_axioms;

/// Why a tool call failed.
#[derive(Debug, PartialEq)]
pub enum FunctionCallError {
    /// The model is told, and can try something else.
    RespondToModel(String),
    /// The turn cannot go on.
    Fatal(String),
}

/// Why a tool call failed, over models.
pub enum FunctionCallErrorModel {
    RespondToModel(Seq<char>),
    Fatal(Seq<char>),
}

impl DeepView for FunctionCallError {
    type V = FunctionCallErrorModel;

    open spec fn deep_view(&self) -> FunctionCallErrorModel {
        match self {
            FunctionCallError::RespondToModel(message) => FunctionCallErrorModel::RespondToModel(
                message@,
            ),
            FunctionCallError::Fatal(message) => FunctionCallErrorModel::Fatal(message@),
        }
    }
}

/// Input of the `send_message` tool.
#[derive(Debug)]
pub struct SendMessageArgs {
    pub target: String,
    pub message: String,
}

/// Input of the `followup_task` tool.
#[derive(Debug)]
pub struct FollowupTaskArgs {
    pub target: String,
    pub message: String,
}

/// Checks that a message says something; it is sent as it is.
pub fn message_content(message: String) -> (content: Result<String, FunctionCallError>)
    ensures
        match content {
            Ok(content) => !text::blank(message@) && content@ == message@,
            Err(error) => text::blank(message@) && error.deep_view()
                == FunctionCallErrorModel::RespondToModel(
                "Empty message can't be sent to an agent"@,
            ),
        },
{
    if is_blank(message.as_str()) {
        return Err(
            FunctionCallError::RespondToModel("Empty message can't be sent to an agent".to_owned()),
        );
    }
    Ok(message)
}

/// How the delivery of a message went.
#[derive(Debug)]
pub enum DeliveryOutcome {
    /// It reached the agent at this path.
    Delivered(String),
    /// No agent has the receiver's id.
    ThreadNotFound,
    /// The request was not one that can be served; the text says why.
    InvalidRequest(String),
    /// The agent failed in some other way, reported by this error.
    AgentFailed(FunctionCallError),
}

/// What follows the delivery of a message.
#[derive(Debug)]
pub enum DeliveryStep {
    /// Report the interaction with the agent at this path, and succeed.
    ReportActivity(String),
    /// List the addressable agents, and fail with what
    /// [`unknown_agent_error`] makes of them.
    ListAgents,
    /// Fail.
    Reject(FunctionCallError),
}

/// Decides what follows the delivery of a message.
pub fn after_delivery(outcome: DeliveryOutcome) -> (step: DeliveryStep)
    ensures
        match outcome {
            DeliveryOutcome::Delivered(path) => step == DeliveryStep::ReportActivity(path),
            DeliveryOutcome::ThreadNotFound => step == DeliveryStep::ListAgents,
            DeliveryOutcome::InvalidRequest(message) => step == DeliveryStep::Reject(
                FunctionCallError::RespondToModel(message),
            ),
            DeliveryOutcome::AgentFailed(error) => step == DeliveryStep::Reject(error),
        },
{
    match outcome {
        DeliveryOutcome::Delivered(path) => DeliveryStep::ReportActivity(path),
        DeliveryOutcome::ThreadNotFound => DeliveryStep::ListAgents,
        DeliveryOutcome::InvalidRequest(message) => DeliveryStep::Reject(
            FunctionCallError::RespondToModel(message),
        ),
        DeliveryOutcome::AgentFailed(error) => DeliveryStep::Reject(error),
    }
}

/// The error for a message to an agent that does not exist. Models that
/// address agents by invented ids can only recover if the error names the
/// agents that do exist; without a roster it names none.
pub fn unknown_agent_error(receiver_id: &str, roster: Option<Vec<String>>) -> (error:
    FunctionCallError)
    ensures
        error.deep_view() == FunctionCallErrorModel::RespondToModel(
            "agent with id "@ + receiver_id@
                + " not found. Addressable agents (use one as the target): "@ + (match roster {
                Some(names) => text::joined(names.deep_view(), ", "@),
                None => Seq::empty(),
            }),
        ),
{
    let names = match &roster {
        Some(names) => join(names, ", "),
        None => String::new(),
    };
    FunctionCallError::RespondToModel(
        "agent with id ".to_owned().concat(receiver_id).concat(
            " not found. Addressable agents (use one as the target): ",
        ).concat(names.as_str()),
    )
}

/// A failed call is modelled by its kind and its message, text for text.
pub proof fn law_errors_are_modelled_by_what_they_hold(error: FunctionCallError)
    ensures
        match error {
            FunctionCallError::RespondToModel(message) => error.deep_view()
                == FunctionCallErrorModel::RespondToModel(message@),
            FunctionCallError::Fatal(message) => error.deep_view() == FunctionCallErrorModel::Fatal(
                message@,
            ),
        },
{
}

/// A message is sent exactly when it says something, and then as it is; a blank
/// one is refused, and the model is told.
pub proof fn law_only_blank_messages_are_refused(
    message: String,
    content: Result<String, FunctionCallError>,
)
    requires
        call_ensures(message_content, (message,), content),
    ensures
        content is Ok <==> !text::blank(message@),
        content matches Ok(sent) ==> sent@ == message@,
        content matches Err(error) ==> error.deep_view() == FunctionCallErrorModel::RespondToModel(
            "Empty message can't be sent to an agent"@,
        ),
{
}

/// A delivered message is reported, at the path it reached; one to an unknown
/// agent leads to the list of agents; any other failure is passed on as it is.
pub proof fn law_a_delivery_is_followed_by_its_report(
    outcome: DeliveryOutcome,
    step: DeliveryStep,
)
    requires
        call_ensures(after_delivery, (outcome,), step),
    ensures
        outcome matches DeliveryOutcome::Delivered(path) ==> step == DeliveryStep::ReportActivity(
            path,
        ),
        outcome is ThreadNotFound <==> step is ListAgents,
        outcome matches DeliveryOutcome::InvalidRequest(message) ==> step == DeliveryStep::Reject(
            FunctionCallError::RespondToModel(message),
        ),
        outcome matches DeliveryOutcome::AgentFailed(error) ==> step == DeliveryStep::Reject(error),
{
}

/// The error over an unknown agent names the agent and every one that can be
/// addressed.
pub proof fn law_an_unknown_agent_is_told_the_others(
    receiver_id: &str,
    roster: Option<Vec<String>>,
    error: FunctionCallError,
)
    requires
        call_ensures(unknown_agent_error, (receiver_id, roster), error),
    ensures
        ({
            let start = "agent with id "@ + receiver_id@
                + " not found. Addressable agents (use one as the target): "@;
            &&& roster matches Some(names) ==> error.deep_view()
                == FunctionCallErrorModel::RespondToModel(
                start + text::joined(names.deep_view(), ", "@),
            )
            &&& roster is None ==> error.deep_view() == FunctionCallErrorModel::RespondToModel(
                start,
            )
        }),
{
    let start = "agent with id "@ + receiver_id@
        + " not found. Addressable agents (use one as the target): "@;
    assert(start + Seq::<char>::empty() =~= start);
}

} // verus!
