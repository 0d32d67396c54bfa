//! The conversation items, stream events and errors that the bridge exchanges
//! with its host.

use vstd::prelude::*;

verus! {

/// One part of a message.
#[derive(Debug, PartialEq)]
pub enum ContentItem {
    InputText { text: String },
    OutputText { text: String },
    InputImage,
    InputAudio,
}

/// What a part of a message holds.
pub enum ContentItemModel {
    InputText { text: Seq<char> },
    OutputText { text: Seq<char> },
    InputImage,
    InputAudio,
}

impl DeepView for ContentItem {
    type V = ContentItemModel;

    open spec fn deep_view(&self) -> ContentItemModel {
        match self {
            ContentItem::InputText { text } => ContentItemModel::InputText { text: text@ },
            ContentItem::OutputText { text } => ContentItemModel::OutputText { text: text@ },
            ContentItem::InputImage => ContentItemModel::InputImage,
            ContentItem::InputAudio => ContentItemModel::InputAudio,
        }
    }
}

/// One part of a structured tool output.
#[derive(Debug, PartialEq)]
pub enum OutputContentItem {
    InputText { text: String },
    InputImage,
    InputAudio,
    EncryptedContent,
}

/// What a part of a structured tool output holds.
pub enum OutputContentItemModel {
    InputText { text: Seq<char> },
    InputImage,
    InputAudio,
    EncryptedContent,
}

impl DeepView for OutputContentItem {
    type V = OutputContentItemModel;

    open spec fn deep_view(&self) -> OutputContentItemModel {
        match self {
            OutputContentItem::InputText { text } => OutputContentItemModel::InputText {
                text: text@,
            },
            OutputContentItem::InputImage => OutputContentItemModel::InputImage,
            OutputContentItem::InputAudio => OutputContentItemModel::InputAudio,
            OutputContentItem::EncryptedContent => OutputContentItemModel::EncryptedContent,
        }
    }
}

/// The output of a tool call: plain text, or a list of parts.
#[derive(Debug, PartialEq)]
pub enum FunctionCallOutputBody {
    Text(String),
    ContentItems(Vec<OutputContentItem>),
}

/// What the output of a tool call holds.
pub enum FunctionCallOutputBodyModel {
    Text(Seq<char>),
    ContentItems(Seq<OutputContentItemModel>),
}

impl DeepView for FunctionCallOutputBody {
    type V = FunctionCallOutputBodyModel;

    open spec fn deep_view(&self) -> FunctionCallOutputBodyModel {
        match self {
            FunctionCallOutputBody::Text(text) => FunctionCallOutputBodyModel::Text(text@),
            FunctionCallOutputBody::ContentItems(items) => FunctionCallOutputBodyModel::ContentItems(
                items.deep_view(),
            ),
        }
    }
}

/// One item of a conversation. `Other` stands for every kind of item that the
/// bridge neither reads nor makes.
#[derive(Debug, PartialEq)]
pub enum ResponseItem {
    Message { role: String, content: Vec<ContentItem> },
    FunctionCall {
        name: String,
        arguments: String,
        /// The arguments that came encrypted, where the call says which.
        encrypted_function_args: Option<Vec<String>>,
        call_id: String,
    },
    FunctionCallOutput { body: FunctionCallOutputBody },
    Other,
}

/// What an item of a conversation holds.
pub enum ResponseItemModel {
    Message { role: Seq<char>, content: Seq<ContentItemModel> },
    FunctionCall {
        name: Seq<char>,
        arguments: Seq<char>,
        encrypted_function_args: Option<Seq<Seq<char>>>,
        call_id: Seq<char>,
    },
    FunctionCallOutput { body: FunctionCallOutputBodyModel },
    Other,
}

impl DeepView for ResponseItem {
    type V = ResponseItemModel;

    open spec fn deep_view(&self) -> ResponseItemModel {
        match self {
            ResponseItem::Message { role, content } => ResponseItemModel::Message {
                role: role@,
                content: content.deep_view(),
            },
            ResponseItem::FunctionCall { name, arguments, encrypted_function_args, call_id } =>
                ResponseItemModel::FunctionCall {
                name: name@,
                arguments: arguments@,
                encrypted_function_args: encrypted_function_args.deep_view(),
                call_id: call_id@,
            },
            ResponseItem::FunctionCallOutput { body } => ResponseItemModel::FunctionCallOutput {
                body: body.deep_view(),
            },
            ResponseItem::Other => ResponseItemModel::Other,
        }
    }
}

/// A tool offered to the model. `Other` stands for every kind of tool that is
/// not a plain function.
#[derive(Debug, PartialEq)]
pub enum ToolSpec {
    Function { name: String },
    Other,
}

/// What a tool is.
pub enum ToolSpecModel {
    Function { name: Seq<char> },
    Other,
}

impl DeepView for ToolSpec {
    type V = ToolSpecModel;

    open spec fn deep_view(&self) -> ToolSpecModel {
        match self {
            ToolSpec::Function { name } => ToolSpecModel::Function { name: name@ },
            ToolSpec::Other => ToolSpecModel::Other,
        }
    }
}

/// Token counts of one turn.
#[derive(Clone, Copy, Debug, PartialEq, Eq, Structural)]
pub struct TokenUsage {
    pub input_tokens: i64,
    pub cached_input_tokens: i64,
    pub cache_write_input_tokens: i64,
    pub output_tokens: i64,
    pub reasoning_output_tokens: i64,
    pub total_tokens: i64,
}

/// No tokens at all.
pub open spec fn no_tokens() -> TokenUsage {
    TokenUsage {
        input_tokens: 0,
        cached_input_tokens: 0,
        cache_write_input_tokens: 0,
        output_tokens: 0,
        reasoning_output_tokens: 0,
        total_tokens: 0,
    }
}

impl Default for TokenUsage {
    fn default() -> (usage: Self)
        ensures
            usage == no_tokens(),
    {
        TokenUsage {
            input_tokens: 0,
            cached_input_tokens: 0,
            cache_write_input_tokens: 0,
            output_tokens: 0,
            reasoning_output_tokens: 0,
            total_tokens: 0,
        }
    }
}

/// How far a tool call inside the bridged core has got.
#[derive(Clone, Copy, Debug, PartialEq, Eq, Structural)]
pub enum BridgeToolActivityStatus {
    Started,
    Completed,
    Failed,
}

/// Live status of a tool call that the bridged core executes itself.
#[derive(Debug, PartialEq)]
pub struct BridgeToolActivityEvent {
    pub call_id: String,
    pub tool: String,
    pub status: BridgeToolActivityStatus,
    pub detail: Option<String>,
}

/// What a tool activity says.
pub struct ActivityModel {
    pub call_id: Seq<char>,
    pub tool: Seq<char>,
    pub status: BridgeToolActivityStatus,
    pub detail: Option<Seq<char>>,
}

impl DeepView for BridgeToolActivityEvent {
    type V = ActivityModel;

    open spec fn deep_view(&self) -> ActivityModel {
        ActivityModel {
            call_id: self.call_id@,
            tool: self.tool@,
            status: self.status,
            detail: self.detail.deep_view(),
        }
    }
}

/// One event of a response stream. `Other` stands for every kind of event
/// that the bridge neither reads nor makes.
#[derive(Debug, PartialEq)]
pub enum ResponseEvent {
    OutputItemAdded(ResponseItem),
    OutputTextDelta(String),
    OutputItemDone(ResponseItem),
    BridgeToolActivity(BridgeToolActivityEvent),
    Completed { response_id: String, token_usage: Option<TokenUsage>, end_turn: Option<bool> },
    Other,
}

/// What an event of a response stream says.
pub enum EventModel {
    OutputItemAdded(ResponseItemModel),
    OutputTextDelta(Seq<char>),
    OutputItemDone(ResponseItemModel),
    BridgeToolActivity(ActivityModel),
    Completed { response_id: Seq<char>, token_usage: Option<TokenUsage>, end_turn: Option<bool> },
    Other,
}

impl DeepView for ResponseEvent {
    type V = EventModel;

    open spec fn deep_view(&self) -> EventModel {
        match self {
            ResponseEvent::OutputItemAdded(item) => EventModel::OutputItemAdded(item.deep_view()),
            ResponseEvent::OutputTextDelta(delta) => EventModel::OutputTextDelta(delta@),
            ResponseEvent::OutputItemDone(item) => EventModel::OutputItemDone(item.deep_view()),
            ResponseEvent::BridgeToolActivity(activity) => EventModel::BridgeToolActivity(
                activity.deep_view(),
            ),
            ResponseEvent::Completed { response_id, token_usage, end_turn } =>
                EventModel::Completed {
                response_id: response_id@,
                token_usage: *token_usage,
                end_turn: *end_turn,
            },
            ResponseEvent::Other => EventModel::Other,
        }
    }
}

/// Why a stream failed.
#[derive(Debug, PartialEq)]
pub enum ApiError {
    /// The request cannot succeed as it stands; it is not sent again.
    InvalidRequest { message: String },
    /// The stream broke; the request may be sent again.
    Stream(String),
}

/// What an error says.
pub enum ApiErrorModel {
    InvalidRequest { message: Seq<char> },
    Stream(Seq<char>),
}

impl DeepView for ApiError {
    type V = ApiErrorModel;

    open spec fn deep_view(&self) -> ApiErrorModel {
        match self {
            ApiError::InvalidRequest { message } => ApiErrorModel::InvalidRequest {
                message: message@,
            },
            ApiError::Stream(message) => ApiErrorModel::Stream(message@),
        }
    }
}

impl ApiErrorModel {
    /// Whether the host sends the request again on its own.
    pub open spec fn retryable(self) -> bool {
        self is Stream
    }
}

/// An assistant message with one text part.
pub open spec fn assistant_model(text: Seq<char>) -> ResponseItemModel {
    ResponseItemModel::Message {
        role: "assistant"@,
        content: seq![ContentItemModel::OutputText { text }],
    }
}

/// An assistant message with one text part.
pub fn assistant_message(text: String) -> (item: ResponseItem)
    ensures
        item.deep_view() == assistant_model(text@),
{
    let mut content: Vec<ContentItem> = Vec::new();
    content.push(ContentItem::OutputText { text });
    assert(content.deep_view() =~= seq![ContentItemModel::OutputText { text: text@ }]);
    ResponseItem::Message { role: "assistant".to_owned(), content }
}

/// A message, a tool and an activity are modelled by all that they hold, text
/// for text.
pub proof fn law_items_are_modelled_by_what_they_hold(
    part: ContentItem,
    output: OutputContentItem,
    body: FunctionCallOutputBody,
    item: ResponseItem,
    tool: ToolSpec,
    activity: BridgeToolActivityEvent,
)
    ensures
        match part {
            ContentItem::InputText { text } => part.deep_view() == (ContentItemModel::InputText {
                text: text@,
            }),
            ContentItem::OutputText { text } => part.deep_view() == (ContentItemModel::OutputText {
                text: text@,
            }),
            _ => !(part.deep_view() is InputText) && !(part.deep_view() is OutputText),
        },
        match output {
            OutputContentItem::InputText { text } => output.deep_view() == (
            OutputContentItemModel::InputText { text: text@ }),
            _ => !(output.deep_view() is InputText),
        },
        match body {
            FunctionCallOutputBody::Text(text) => body.deep_view()
                == FunctionCallOutputBodyModel::Text(text@),
            FunctionCallOutputBody::ContentItems(items) => body.deep_view()
                == FunctionCallOutputBodyModel::ContentItems(items.deep_view()),
        },
        match item {
            ResponseItem::Message { role, content } => item.deep_view() == (
            ResponseItemModel::Message { role: role@, content: content.deep_view() }),
            ResponseItem::FunctionCall { name, arguments, encrypted_function_args, call_id } =>
                item.deep_view() == (ResponseItemModel::FunctionCall {
                name: name@,
                arguments: arguments@,
                encrypted_function_args: encrypted_function_args.deep_view(),
                call_id: call_id@,
            }),
            ResponseItem::FunctionCallOutput { body } => item.deep_view() == (
            ResponseItemModel::FunctionCallOutput { body: body.deep_view() }),
            ResponseItem::Other => item.deep_view() is Other,
        },
        match tool {
            ToolSpec::Function { name } => tool.deep_view() == (ToolSpecModel::Function {
                name: name@,
            }),
            ToolSpec::Other => tool.deep_view() is Other,
        },
        activity.deep_view().call_id == activity.call_id@,
        activity.deep_view().tool == activity.tool@,
        activity.deep_view().status == activity.status,
        activity.deep_view().detail == activity.detail.deep_view(),
{
}

/// An event and an error are modelled by all that they hold.
pub proof fn law_events_are_modelled_by_what_they_hold(event: ResponseEvent, error: ApiError)
    ensures
        match event {
            ResponseEvent::OutputItemAdded(item) => event.deep_view()
                == EventModel::OutputItemAdded(item.deep_view()),
            ResponseEvent::OutputTextDelta(delta) => event.deep_view()
                == EventModel::OutputTextDelta(delta@),
            ResponseEvent::OutputItemDone(item) => event.deep_view()
                == EventModel::OutputItemDone(item.deep_view()),
            ResponseEvent::BridgeToolActivity(activity) => event.deep_view()
                == EventModel::BridgeToolActivity(activity.deep_view()),
            ResponseEvent::Completed { response_id, token_usage, end_turn } => event.deep_view()
                == (EventModel::Completed { response_id: response_id@, token_usage, end_turn }),
            ResponseEvent::Other => event.deep_view() is Other,
        },
        match error {
            ApiError::InvalidRequest { message } => error.deep_view() == (
            ApiErrorModel::InvalidRequest { message: message@ }) && !error.deep_view().retryable(),
            ApiError::Stream(message) => error.deep_view() == ApiErrorModel::Stream(message@)
                && error.deep_view().retryable(),
        },
{
}

/// An assistant message says one text, as it is, and no tokens are none of any
/// kind.
pub proof fn law_an_assistant_message_says_its_text(text: Seq<char>)
    ensures
        assistant_model(text) matches ResponseItemModel::Message { role, content } && {
            &&& role == "assistant"@
            &&& content.len() == 1
            &&& content[0] == ContentItemModel::OutputText { text }
        },
        no_tokens().input_tokens == 0 && no_tokens().cached_input_tokens == 0
            && no_tokens().cache_write_input_tokens == 0 && no_tokens().output_tokens == 0
            && no_tokens().reasoning_output_tokens == 0 && no_tokens().total_tokens == 0,
{
}

} // verus!
