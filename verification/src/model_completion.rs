//! One-off, tool-less model completions.

use crate::protocol::ContentItem;
use crate::protocol::ContentItemModel;
use crate::protocol::EventModel;
use crate::protocol::ResponseEvent;
use crate::protocol::ResponseItem;
use crate::protocol::ResponseItemModel;
use crate::text;
use crate::text::is_blank;
use crate::text::join;
use crate::text::str_eq;
use vstd::prelude::*;
use vstd::utf8::encode_utf8;

verus! {

broadcast use vstd::string::group_string_axioms;

/// Request for one bounded, tool-less host model completion.
#[derive(Debug)]
pub struct CompletionRequest {
    /// Single user message presented to the model. Implementations reject
    /// requests above their own hard cap, so callers must bound the input
    /// before building the request.
    pub input: String,
}

/// Text output of one tool-less host model completion.
#[derive(Debug)]
pub struct CompletionOutput {
    /// Final assistant message text.
    pub message: String,
}

impl Clone for CompletionRequest {
    fn clone(&self) -> (copy: Self)
        ensures
            copy.input@ == self.input@,
    {
        CompletionRequest { input: self.input.clone() }
    }
}

impl Clone for CompletionOutput {
    fn clone(&self) -> (copy: Self)
        ensures
            copy.message@ == self.message@,
    {
        CompletionOutput { message: self.message.clone() }
    }
}

/// Host capability for one-off model completions with no tools attached.
///
/// Implementations run the request without any tool surface, so the model can
/// only answer with text; callers use this for judge or verification passes
/// that must never act.
pub trait ModelCompletion {
    /// Runs one completion and returns the final assistant message text.
    fn complete(&self, request: CompletionRequest) -> Result<CompletionOutput, String>;
}

/// Completion capability for hosts and tests with no model access.
///
/// It fails closed: every request returns an error so callers never mistake a
/// missing capability for a verified result.
#[derive(Debug, Clone, Copy)]
pub struct NoopModelCompletion;

impl Default for NoopModelCompletion {
    fn default() -> (completion: Self)
        ensures
            completion == NoopModelCompletion,
    {
        NoopModelCompletion
    }
}

impl ModelCompletion for NoopModelCompletion {
    fn complete(&self, request: CompletionRequest) -> (outcome: Result<CompletionOutput, String>)
        ensures
            outcome matches Err(error) && error@ == "host model completion is unavailable"@,
    {
        Err("host model completion is unavailable".to_owned())
    }
}

/// Hard cap, in bytes of its UTF-8 form, on the single user message accepted
/// for one host model completion.
pub const MODEL_COMPLETION_INPUT_CHAR_BUDGET: usize = 32_768;

/// Why a completion is not run, if it is not: the session is gone, or the
/// input is too long.
pub open spec fn completion_refusal(session_alive: bool, input: Seq<char>) -> Option<Seq<char>> {
    if !session_alive {
        Some("session ended before the model completion ran"@)
    } else if encode_utf8(input).len() > MODEL_COMPLETION_INPUT_CHAR_BUDGET {
        Some("model completion input exceeded the 32768 character budget"@)
    } else {
        None
    }
}

/// The prompt of a completion: its input as the only message, by the user.
pub open spec fn completion_prompt_model(input: Seq<char>) -> Seq<ResponseItemModel> {
    seq![
        ResponseItemModel::Message {
            role: "user"@,
            content: seq![ContentItemModel::InputText { text: input }],
        },
    ]
}

/// The prompt of a completion, or why the completion is not run.
pub fn completion_prompt(session_alive: bool, request: CompletionRequest) -> (prompt: Result<
    Vec<ResponseItem>,
    String,
>)
    ensures
        match completion_refusal(session_alive, request.input@) {
            Some(why) => prompt matches Err(error) && error@ == why,
            None => prompt matches Ok(items) && items.deep_view() == completion_prompt_model(
                request.input@,
            ),
        },
{
    if !session_alive {
        return Err("session ended before the model completion ran".to_owned());
    }
    if request.input.as_str().as_bytes().len() > MODEL_COMPLETION_INPUT_CHAR_BUDGET {
        return Err("model completion input exceeded the 32768 character budget".to_owned());
    }
    let ghost input = request.input@;
    let mut content: Vec<ContentItem> = Vec::new();
    content.push(ContentItem::InputText { text: request.input });
    assert(content.deep_view() =~= seq![ContentItemModel::InputText { text: input }]);
    let mut items: Vec<ResponseItem> = Vec::new();
    items.push(ResponseItem::Message { role: "user".to_owned(), content });
    assert(items.deep_view() =~= completion_prompt_model(input));
    Ok(items)
}

/// The texts that the model wrote among the parts of a message.
pub open spec fn written_texts(content: Seq<ContentItemModel>) -> Seq<Seq<char>>
    decreases content.len(),
{
    if content.len() == 0 {
        Seq::empty()
    } else {
        match content.last() {
            ContentItemModel::OutputText { text } => written_texts(content.drop_last()).push(text),
            _ => written_texts(content.drop_last()),
        }
    }
}

/// What an item adds to a completion: the text of an assistant message that is
/// not blank.
pub open spec fn assistant_text(item: ResponseItemModel) -> Option<Seq<char>> {
    match item {
        ResponseItemModel::Message { role, content } => {
            let text = text::joined(written_texts(content), ""@);
            if role == "assistant"@ && !text::blank(text) {
                Some(text)
            } else {
                None
            }
        },
        _ => None,
    }
}

fn texts_written(content: &Vec<ContentItem>) -> (texts: Vec<String>)
    ensures
        texts.deep_view() == written_texts(content.deep_view()),
{
    let mut texts: Vec<String> = Vec::new();
    let mut i: usize = 0;
    let ghost all = content.deep_view();
    assert(texts.deep_view() =~= written_texts(all.take(0)));
    while i < content.len()
        invariant
            i <= content@.len(),
            all == content.deep_view(),
            texts.deep_view() == written_texts(all.take(i as int)),
        decreases content@.len() - i,
    {
        let ghost before = texts.deep_view();
        assert(all.take(i + 1).drop_last() =~= all.take(i as int));
        assert(all.take(i + 1).last() == content@[i as int].deep_view());
        if let ContentItem::OutputText { text } = &content[i] {
            texts.push(text.clone());
            assert(texts.deep_view() =~= before.push(text@));
        }
        i = i + 1;
    }
    assert(all.take(all.len() as int) =~= all);
    texts
}

fn text_of_assistant(item: &ResponseItem) -> (text: Option<String>)
    ensures
        text.deep_view() == assistant_text(item.deep_view()),
{
    match item {
        ResponseItem::Message { role, content } => {
            if !str_eq(role.as_str(), "assistant") {
                return None;
            }
            let texts = texts_written(content);
            let text = join(&texts, "");
            if is_blank(text.as_str()) {
                None
            } else {
                Some(text)
            }
        },
        _ => None,
    }
}

/// What a running completion is handed.
#[derive(Debug)]
pub enum CompletionInput {
    /// The next event of the stream.
    Event(ResponseEvent),
    /// The stream could not be started; the text says why.
    NotStarted(String),
    /// The stream failed; the text says why.
    Failed(String),
    /// The stream is closed.
    Closed,
}

/// What a running completion is handed, over models.
pub enum CompletionInputModel {
    Event(EventModel),
    NotStarted(Seq<char>),
    Failed(Seq<char>),
    Closed,
}

impl DeepView for CompletionInput {
    type V = CompletionInputModel;

    open spec fn deep_view(&self) -> CompletionInputModel {
        match self {
            CompletionInput::Event(event) => CompletionInputModel::Event(event.deep_view()),
            CompletionInput::NotStarted(error) => CompletionInputModel::NotStarted(error@),
            CompletionInput::Failed(error) => CompletionInputModel::Failed(error@),
            CompletionInput::Closed => CompletionInputModel::Closed,
        }
    }
}

/// The last message seen once an input has been looked at: a later assistant
/// message replaces an earlier one.
pub open spec fn message_after(
    message: Option<Seq<char>>,
    input: CompletionInputModel,
) -> Option<Seq<char>> {
    match input {
        CompletionInputModel::Event(EventModel::OutputItemDone(item)) => match assistant_text(
            item,
        ) {
            Some(text) => Some(text),
            None => message,
        },
        _ => message,
    }
}

/// How a completion ends on an input, if it does.
pub open spec fn completion_end(
    message: Option<Seq<char>>,
    input: CompletionInputModel,
) -> Option<Result<Seq<char>, Seq<char>>> {
    match input {
        CompletionInputModel::Event(EventModel::Completed { .. }) => match message {
            Some(message) => Some(Ok(message)),
            None => Some(Err("model completion ended without an assistant message"@)),
        },
        CompletionInputModel::Event(_) => None,
        CompletionInputModel::NotStarted(error) => Some(
            Err("model completion stream failed: "@ + error),
        ),
        CompletionInputModel::Failed(error) => Some(
            Err("model completion stream error: "@ + error),
        ),
        CompletionInputModel::Closed => Some(
            Err("model completion stream closed before completing"@),
        ),
    }
}

/// How a completion ended, over models.
pub open spec fn end_model(end: Option<Result<CompletionOutput, String>>) -> Option<
    Result<Seq<char>, Seq<char>>,
> {
    match end {
        Some(Ok(output)) => Some(Ok(output.message@)),
        Some(Err(error)) => Some(Err(error@)),
        None => None,
    }
}

/// Collects the stream of one completion.
#[derive(Debug)]
pub struct CompletionCollector {
    message: Option<String>,
}

impl View for CompletionCollector {
    type V = Option<Seq<char>>;

    closed spec fn view(&self) -> Option<Seq<char>> {
        self.message.deep_view()
    }
}

impl CompletionCollector {
    /// No message seen yet.
    pub fn new() -> (collector: CompletionCollector)
        ensures
            collector@ == None::<Seq<char>>,
    {
        CompletionCollector { message: None }
    }

    /// Takes in one input, and says how the completion ended, if it did.
    pub fn step(&mut self, input: CompletionInput) -> (end: Option<
        Result<CompletionOutput, String>,
    >)
        ensures
            final(self)@ == message_after(old(self)@, input.deep_view()),
            end_model(end) == completion_end(old(self)@, input.deep_view()),
    {
        match input {
            CompletionInput::Event(event) => match event {
                ResponseEvent::OutputItemDone(item) => {
                    if let Some(text) = text_of_assistant(&item) {
                        self.message = Some(text);
                    }
                    None
                },
                ResponseEvent::Completed { .. } => match &self.message {
                    Some(message) => Some(Ok(CompletionOutput { message: message.clone() })),
                    None => Some(
                        Err("model completion ended without an assistant message".to_owned()),
                    ),
                },
                _ => None,
            },
            CompletionInput::NotStarted(error) => Some(
                Err("model completion stream failed: ".to_owned().concat(error.as_str())),
            ),
            CompletionInput::Failed(error) => Some(
                Err("model completion stream error: ".to_owned().concat(error.as_str())),
            ),
            CompletionInput::Closed => Some(
                Err("model completion stream closed before completing".to_owned()),
            ),
        }
    }
}

/// A completion is refused for a session that is gone and for an input of more
/// than 32768 bytes, each in its own words, and for nothing else. What is not
/// refused goes to the model whole, as the user's only message.
pub proof fn law_a_completion_asks_its_input(session_alive: bool, input: Seq<char>)
    ensures
        completion_refusal(session_alive, input) is None <==> session_alive && encode_utf8(
            input,
        ).len() <= 32768,
        !session_alive ==> completion_refusal(session_alive, input) == Some(
            "session ended before the model completion ran"@,
        ),
        session_alive && encode_utf8(input).len() > 32768 ==> completion_refusal(
            session_alive,
            input,
        ) == Some("model completion input exceeded the 32768 character budget"@),
        completion_prompt_model(input).len() == 1,
        completion_prompt_model(input)[0] matches ResponseItemModel::Message { role, content } && {
            &&& role == "user"@
            &&& content.len() == 1
            &&& content[0] == ContentItemModel::InputText { text: input }
        },
{
}

/// What the model wrote in a message is all its output texts, in order, and
/// nothing else.
pub proof fn law_all_written_texts_are_taken(
    before: Seq<ContentItemModel>,
    part: ContentItemModel,
    after: Seq<ContentItemModel>,
)
    ensures
        written_texts(Seq::empty()) == Seq::<Seq<char>>::empty(),
        match part {
            ContentItemModel::OutputText { text } => written_texts(before.push(part) + after)
                == written_texts(before).push(text) + written_texts(after),
            _ => written_texts(before.push(part) + after) == written_texts(before) + written_texts(
                after,
            ),
        },
    decreases after.len(),
{
    let all = before.push(part) + after;
    if after.len() == 0 {
        assert(all =~= before.push(part));
        assert(all.drop_last() =~= before);
    } else {
        law_all_written_texts_are_taken(before, part, after.drop_last());
        assert(all.drop_last() =~= before.push(part) + after.drop_last());
        assert(all.last() == after.last());
    }
    match part {
        ContentItemModel::OutputText { text } => {
            assert(written_texts(all) =~= written_texts(before).push(text) + written_texts(after));
        },
        _ => {
            assert(written_texts(all) =~= written_texts(before) + written_texts(after));
        },
    }
}

/// The message of a completion is the text of its last assistant message that
/// says something, run together as it was written; every other input leaves the
/// message as it is.
pub proof fn law_the_last_assistant_message_counts(
    message: Option<Seq<char>>,
    role: Seq<char>,
    content: Seq<ContentItemModel>,
    input: CompletionInputModel,
)
    ensures
        ({
            let said = text::joined(written_texts(content), Seq::empty());
            let done = CompletionInputModel::Event(
                EventModel::OutputItemDone(ResponseItemModel::Message { role, content }),
            );
            let counts = role == "assistant"@ && !text::blank(said);
            &&& counts ==> message_after(message, done) == Some(said)
            &&& !counts ==> message_after(message, done) == message
            &&& completion_end(message, done) is None
        }),
        !(input matches CompletionInputModel::Event(EventModel::OutputItemDone(item)) && item
            is Message) ==> message_after(message, input) == message,
{
    reveal_strlit("");
    assert(""@ =~= Seq::<char>::empty());
}

/// A completion ends with its message when the stream completes, and with what
/// went wrong when it does not or when there is none; no other event ends it.
pub proof fn law_a_completion_ends_with_its_message(
    message: Option<Seq<char>>,
    event: EventModel,
    error: Seq<char>,
)
    ensures
        ({
            let end = completion_end(message, CompletionInputModel::Event(event));
            &&& event is Completed && message is Some ==> end == Some(
                Ok::<Seq<char>, Seq<char>>(message->0),
            )
            &&& event is Completed && message is None ==> end == Some(
                Err::<Seq<char>, Seq<char>>(
                    "model completion ended without an assistant message"@,
                ),
            )
            &&& !(event is Completed) ==> end is None
        }),
        completion_end(message, CompletionInputModel::NotStarted(error)) == Some(
            Err::<Seq<char>, Seq<char>>("model completion stream failed: "@ + error),
        ),
        completion_end(message, CompletionInputModel::Failed(error)) == Some(
            Err::<Seq<char>, Seq<char>>("model completion stream error: "@ + error),
        ),
        completion_end(message, CompletionInputModel::Closed) == Some(
            Err::<Seq<char>, Seq<char>>("model completion stream closed before completing"@),
        ),
{
}

/// Inputs and ends are modelled by all that they hold.
pub proof fn law_completions_are_modelled_by_what_they_hold(
    input: CompletionInput,
    end: Option<Result<CompletionOutput, String>>,
)
    ensures
        match input {
            CompletionInput::Event(event) => input.deep_view() == CompletionInputModel::Event(
                event.deep_view(),
            ),
            CompletionInput::NotStarted(error) => input.deep_view()
                == CompletionInputModel::NotStarted(error@),
            CompletionInput::Failed(error) => input.deep_view() == CompletionInputModel::Failed(
                error@,
            ),
            CompletionInput::Closed => input.deep_view() is Closed,
        },
        match end {
            Some(Ok(output)) => end_model(end) == Some(
                Ok::<Seq<char>, Seq<char>>(output.message@),
            ),
            Some(Err(error)) => end_model(end) == Some(Err::<Seq<char>, Seq<char>>(error@)),
            None => end_model(end) is None,
        },
{
}

/// A completion that is not refused asks the model its input, and a refused one
/// says why. Without a model nothing is ever completed.
pub proof fn law_a_completion_is_asked_or_refused(
    session_alive: bool,
    request: CompletionRequest,
    prompt: Result<Vec<ResponseItem>, String>,
    completion: &NoopModelCompletion,
    outcome: Result<CompletionOutput, String>,
)
    requires
        call_ensures(completion_prompt, (session_alive, request), prompt),
        call_ensures(NoopModelCompletion::complete, (completion, request), outcome),
    ensures
        prompt is Ok <==> completion_refusal(session_alive, request.input@) is None,
        prompt matches Ok(items) ==> items.deep_view() == completion_prompt_model(request.input@),
        prompt matches Err(error) ==> completion_refusal(session_alive, request.input@) == Some(
            error@,
        ),
        outcome is Err,
{
}

/// A collector keeps the last message that counts and ends as its stream does.
pub proof fn law_a_collector_follows_its_stream(
    fresh: CompletionCollector,
    collector: &mut CompletionCollector,
    input: CompletionInput,
    end: Option<Result<CompletionOutput, String>>,
)
    requires
        call_ensures(CompletionCollector::new, (), fresh),
        call_ensures(CompletionCollector::step, (collector, input), end),
    ensures
        fresh@ is None,
        final(collector)@ == message_after(old(collector)@, input.deep_view()),
        end_model(end) == completion_end(old(collector)@, input.deep_view()),
{
}

} // verus!
