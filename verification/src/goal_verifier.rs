//! Completion verification for requests to mark a goal complete.
//!
//! One tool-less model completion judges a bounded transcript, so that the
//! model cannot grant itself goal completion without conversational evidence.
//! Every ambiguous outcome fails closed: the goal stays active and the reason
//! is surfaced back to the model.

use crate::model_completion::CompletionOutput;
use crate::model_completion::CompletionRequest;
use crate::model_completion::ModelCompletion;
use crate::protocol::ContentItem;
use crate::protocol::ContentItemModel;
use crate::protocol::FunctionCallOutputBody;
use crate::protocol::FunctionCallOutputBodyModel;
use crate::protocol::OutputContentItem;
use crate::protocol::OutputContentItemModel;
use crate::protocol::ResponseItem;
use crate::protocol::ResponseItemModel;
use crate::text;
use crate::text::chars_of;
use crate::text::is_blank;
use crate::text::join;
use crate::text::trim;
use crate::text::truncate_chars;
use vstd::prelude::*;

verus! {

broadcast use vstd::string::group_string_axioms;

/// Hard cap on transcript characters quoted in one verification request.
pub const TRANSCRIPT_CHAR_BUDGET: usize = 16_000;

/// Hard cap applied to any single rendered history item.
pub const ITEM_CHAR_BUDGET: usize = 4_000;

/// Hard cap on the failure reason quoted back to the model.
pub const REASON_CHAR_BUDGET: usize = 500;

/// Outcome of one goal-completion verification pass.
#[derive(Debug, PartialEq)]
pub enum CompletionVerdict {
    /// The judge found conversational evidence that the goal was achieved.
    Passed,
    /// The judge found the goal incomplete and returned a reason.
    NotPassed(String),
}

/// What a verdict says.
pub enum VerdictModel {
    Passed,
    NotPassed(Seq<char>),
}

impl DeepView for CompletionVerdict {
    type V = VerdictModel;

    open spec fn deep_view(&self) -> VerdictModel {
        match self {
            CompletionVerdict::Passed => VerdictModel::Passed,
            CompletionVerdict::NotPassed(reason) => VerdictModel::NotPassed(reason@),
        }
    }
}

/// The instructions that the judge gets.
pub const JUDGE_INSTRUCTIONS: &'static str =
    "You are verifying whether a coding agent achieved its assigned goal before it marks the goal complete. Answer with exactly one line: \"PASS\" if the transcript shows the goal was fully achieved, or \"FAIL: <reason>\" if it was not. Do not credit plans, partial progress, or promises of future work.";

/// The message that the judge gets.
pub open spec fn judge_input(objective: Seq<char>, transcript: Seq<char>) -> Seq<char> {
    JUDGE_INSTRUCTIONS@ + "\n\nGoal: "@ + objective + "\n\nConversation transcript:\n"@ + transcript
}

/// The message that the judge gets.
pub fn build_judge_input(objective: &str, transcript: &str) -> (input: String)
    ensures
        input@ == judge_input(objective@, transcript@),
{
    JUDGE_INSTRUCTIONS.to_owned().concat("\n\nGoal: ").concat(objective).concat(
        "\n\nConversation transcript:\n",
    ).concat(transcript)
}

/// The texts among the parts of a message.
pub open spec fn message_texts(content: Seq<ContentItemModel>) -> Seq<Seq<char>>
    decreases content.len(),
{
    if content.len() == 0 {
        Seq::empty()
    } else {
        match content.last() {
            ContentItemModel::InputText { text } => message_texts(content.drop_last()).push(text),
            ContentItemModel::OutputText { text } => message_texts(content.drop_last()).push(text),
            _ => message_texts(content.drop_last()),
        }
    }
}

/// The texts among the parts of a tool output.
pub open spec fn output_texts(items: Seq<OutputContentItemModel>) -> Seq<Seq<char>>
    decreases items.len(),
{
    if items.len() == 0 {
        Seq::empty()
    } else {
        match items.last() {
            OutputContentItemModel::InputText { text } => output_texts(items.drop_last()).push(text),
            _ => output_texts(items.drop_last()),
        }
    }
}

/// The text of a tool output.
pub open spec fn output_text(body: FunctionCallOutputBodyModel) -> Seq<char> {
    match body {
        FunctionCallOutputBodyModel::Text(text) => text,
        FunctionCallOutputBodyModel::ContentItems(items) => text::joined(
            output_texts(items),
            " "@,
        ),
    }
}

/// `text` where it has no more than `max` characters, else as much of its start
/// as leaves room for the ellipsis, and the ellipsis.
pub open spec fn capped(text: Seq<char>, max: nat) -> Seq<char> {
    if text.len() <= max {
        text
    } else {
        text::truncated(text, (max - 1) as nat)
    }
}

fn cap_chars(text: &str, max: usize) -> (kept: String)
    requires
        max > 0,
    ensures
        kept@ == capped(text@, max as nat),
{
    if text.unicode_len() <= max {
        text.to_owned()
    } else {
        truncate_chars(text, max - 1)
    }
}

/// A text behind a label, or nothing where the text is blank.
pub open spec fn labelled(label: Seq<char>, text: Seq<char>) -> Option<Seq<char>> {
    if text::blank(text) {
        None
    } else {
        Some(capped(label + text, ITEM_CHAR_BUDGET as nat))
    }
}

/// How a history item is rendered, if it is.
pub open spec fn rendered_item(item: ResponseItemModel) -> Option<Seq<char>> {
    match item {
        ResponseItemModel::Message { role, content } => labelled(
            role + ": "@,
            text::joined(message_texts(content), " "@),
        ),
        ResponseItemModel::FunctionCall { name, arguments, .. } => Some(
            capped(
                "assistant invoked tool "@ + name + " with arguments: "@ + arguments,
                ITEM_CHAR_BUDGET as nat,
            ),
        ),
        ResponseItemModel::FunctionCallOutput { body } => labelled(
            "tool output: "@,
            output_text(body),
        ),
        ResponseItemModel::Other => None,
    }
}

/// The rendered lines of a history, oldest first.
pub open spec fn rendered_lines(items: Seq<ResponseItemModel>) -> Seq<Seq<char>>
    decreases items.len(),
{
    if items.len() == 0 {
        Seq::empty()
    } else {
        match rendered_item(items.last()) {
            Some(line) => rendered_lines(items.drop_last()).push(line),
            None => rendered_lines(items.drop_last()),
        }
    }
}

/// The newest lines that fit the budget, joined by line feeds: the first line,
/// counted from the newest, that would exceed it ends the transcript.
pub open spec fn kept_lines(lines: Seq<Seq<char>>, budget: int) -> Seq<Seq<char>>
    decreases lines.len(),
{
    if lines.len() == 0 || lines.last().len() > budget {
        Seq::empty()
    } else {
        kept_lines(lines.drop_last(), budget - lines.last().len() - 1).push(lines.last())
    }
}

/// The transcript of a history.
pub open spec fn transcript_of(items: Seq<ResponseItemModel>) -> Seq<char> {
    text::joined(kept_lines(rendered_lines(items), TRANSCRIPT_CHAR_BUDGET as int), "\n"@)
}

fn texts_of_message(content: &Vec<ContentItem>) -> (texts: Vec<String>)
    ensures
        texts.deep_view() == message_texts(content.deep_view()),
{
    let mut texts: Vec<String> = Vec::new();
    let mut i: usize = 0;
    let ghost all = content.deep_view();
    assert(texts.deep_view() =~= message_texts(all.take(0)));
    while i < content.len()
        invariant
            i <= content@.len(),
            all == content.deep_view(),
            texts.deep_view() == message_texts(all.take(i as int)),
        decreases content@.len() - i,
    {
        let ghost before = texts.deep_view();
        assert(all.take(i + 1).drop_last() =~= all.take(i as int));
        assert(all.take(i + 1).last() == content@[i as int].deep_view());
        match &content[i] {
            ContentItem::InputText { text } => {
                texts.push(text.clone());
                assert(texts.deep_view() =~= before.push(text@));
            },
            ContentItem::OutputText { text } => {
                texts.push(text.clone());
                assert(texts.deep_view() =~= before.push(text@));
            },
            _ => {},
        }
        i = i + 1;
    }
    assert(all.take(all.len() as int) =~= all);
    texts
}

fn texts_of_output(items: &Vec<OutputContentItem>) -> (texts: Vec<String>)
    ensures
        texts.deep_view() == output_texts(items.deep_view()),
{
    let mut texts: Vec<String> = Vec::new();
    let mut i: usize = 0;
    let ghost all = items.deep_view();
    assert(texts.deep_view() =~= output_texts(all.take(0)));
    while i < items.len()
        invariant
            i <= items@.len(),
            all == items.deep_view(),
            texts.deep_view() == output_texts(all.take(i as int)),
        decreases items@.len() - i,
    {
        let ghost before = texts.deep_view();
        assert(all.take(i + 1).drop_last() =~= all.take(i as int));
        assert(all.take(i + 1).last() == items@[i as int].deep_view());
        if let OutputContentItem::InputText { text } = &items[i] {
            texts.push(text.clone());
            assert(texts.deep_view() =~= before.push(text@));
        }
        i = i + 1;
    }
    assert(all.take(all.len() as int) =~= all);
    texts
}

fn label_text(label: String, text: &str) -> (line: Option<String>)
    ensures
        line.deep_view() == labelled(label@, text@),
{
    if is_blank(text) {
        None
    } else {
        Some(cap_chars(label.concat(text).as_str(), ITEM_CHAR_BUDGET))
    }
}

/// Renders a history item, if it is one that the judge is shown.
pub fn render_item(item: &ResponseItem) -> (line: Option<String>)
    ensures
        line.deep_view() == rendered_item(item.deep_view()),
{
    match item {
        ResponseItem::Message { role, content } => {
            let texts = texts_of_message(content);
            label_text(role.clone().concat(": "), join(&texts, " ").as_str())
        },
        ResponseItem::FunctionCall { name, arguments, .. } => Some(
            cap_chars(
                "assistant invoked tool ".to_owned().concat(name.as_str()).concat(
                    " with arguments: ",
                ).concat(arguments.as_str()).as_str(),
                ITEM_CHAR_BUDGET,
            ),
        ),
        ResponseItem::FunctionCallOutput { body } => match body {
            FunctionCallOutputBody::Text(text) => label_text("tool output: ".to_owned(), text.as_str()),
            FunctionCallOutputBody::ContentItems(items) => {
                let texts = texts_of_output(items);
                label_text("tool output: ".to_owned(), join(&texts, " ").as_str())
            },
        },
        ResponseItem::Other => None,
    }
}

/// Renders the newest part of a history that fits the transcript budget.
pub fn render_transcript(items: &[ResponseItem]) -> (transcript: String)
    ensures
        transcript@ == transcript_of(items.deep_view()),
{
    let mut lines: Vec<String> = Vec::new();
    let ghost all = items.deep_view();
    let mut i: usize = 0;
    assert(lines.deep_view() =~= rendered_lines(all.take(0)));
    while i < items.len()
        invariant
            i <= items@.len(),
            all == items.deep_view(),
            lines.deep_view() == rendered_lines(all.take(i as int)),
        decreases items@.len() - i,
    {
        let ghost before = lines.deep_view();
        assert(all.take(i + 1).drop_last() =~= all.take(i as int));
        assert(all.take(i + 1).last() == items@[i as int].deep_view());
        if let Some(line) = render_item(&items[i]) {
            lines.push(line);
            assert(lines.deep_view() =~= before.push(line@));
        }
        i = i + 1;
    }
    assert(all.take(all.len() as int) =~= all);
    let ghost rendered = lines.deep_view();
    let mut from: usize = lines.len();
    // One more than what is left of the budget: each line pays for itself and
    // a line feed, and the newest one needs none.
    let mut left: usize = TRANSCRIPT_CHAR_BUDGET + 1;
    proof {
        assert(rendered.take(rendered.len() as int) =~= rendered);
        assert(rendered.subrange(rendered.len() as int, rendered.len() as int) =~= Seq::<
            Seq<char>,
        >::empty());
        assert(kept_lines(rendered, left - 1) + Seq::<Seq<char>>::empty() =~= kept_lines(
            rendered,
            left - 1,
        ));
    }
    while from > 0
        invariant
            from <= lines@.len(),
            rendered == lines.deep_view(),
            kept_lines(rendered, TRANSCRIPT_CHAR_BUDGET as int) == kept_lines(
                rendered.take(from as int),
                left - 1,
            ) + rendered.subrange(from as int, rendered.len() as int),
        ensures
            from <= lines@.len(),
            kept_lines(rendered, TRANSCRIPT_CHAR_BUDGET as int) == rendered.subrange(
                from as int,
                rendered.len() as int,
            ),
        decreases from,
    {
        let len: usize = lines[from - 1].as_str().unicode_len();
        let ghost prefix = rendered.take(from as int);
        assert(prefix.last() == lines@[from - 1]@);
        if len >= left {
            assert(Seq::<Seq<char>>::empty() + rendered.subrange(
                from as int,
                rendered.len() as int,
            ) =~= rendered.subrange(from as int, rendered.len() as int));
            break ;
        }
        let ghost rest = left - len - 2;
        proof {
            assert(prefix.drop_last() =~= rendered.take(from - 1));
            assert(kept_lines(rendered.take(from - 1), rest).push(prefix.last())
                + rendered.subrange(from as int, rendered.len() as int) =~= kept_lines(
                rendered.take(from - 1),
                rest,
            ) + rendered.subrange(from - 1, rendered.len() as int));
        }
        left = left - len - 1;
        from = from - 1;
        proof {
            if from == 0 {
                assert(kept_lines(rendered.take(0), rest) + rendered.subrange(
                    0,
                    rendered.len() as int,
                ) =~= rendered.subrange(0, rendered.len() as int));
            }
        }
    }
    let kept = lines.split_off(from);
    assert(kept.deep_view() =~= rendered.subrange(from as int, rendered.len() as int));
    join(&kept, "\n")
}

/// Whether `c` ends the first word of an answer.
pub open spec fn word_break(c: char) -> bool {
    c == ' ' || c == '\n' || c == '\t' || c == ':'
}

/// How many characters the first word of an answer has.
pub open spec fn word_len(answer: Seq<char>) -> nat
    decreases answer.len(),
{
    if answer.len() == 0 || word_break(answer[0]) {
        0
    } else {
        1 + word_len(answer.subrange(1, answer.len() as int))
    }
}

/// The first word of an answer.
pub open spec fn first_word(answer: Seq<char>) -> Seq<char> {
    answer.take(word_len(answer) as int)
}

/// What follows the first word of an answer and the character that ends it.
pub open spec fn after_word(answer: Seq<char>) -> Seq<char> {
    if word_len(answer) < answer.len() {
        answer.subrange(word_len(answer) as int + 1, answer.len() as int)
    } else {
        Seq::empty()
    }
}

/// Whether `c` is punctuation that may end a verdict.
pub open spec fn verdict_end(c: char) -> bool {
    c == ':' || c == '.' || c == '!'
}

/// `word` without the punctuation it ends in.
pub open spec fn bare_word(word: Seq<char>) -> Seq<char>
    decreases word.len(),
{
    if word.len() > 0 && verdict_end(word.last()) {
        bare_word(word.drop_last())
    } else {
        word
    }
}

/// `c` as an upper-case letter, where it is an ASCII letter.
pub open spec fn ascii_upper(c: char) -> char {
    if 'a' <= c <= 'z' {
        (c as u32 - 32) as char
    } else {
        c
    }
}

/// `word` in upper case, as far as it is ASCII.
pub open spec fn upper(word: Seq<char>) -> Seq<char> {
    Seq::new(word.len(), |i: int| ascii_upper(word[i]))
}

/// `text` without the colons it starts with.
pub open spec fn without_colons(text: Seq<char>) -> Seq<char>
    decreases text.len(),
{
    if text.len() > 0 && text[0] == ':' {
        without_colons(text.subrange(1, text.len() as int))
    } else {
        text
    }
}

/// The reason that follows a negative verdict.
pub open spec fn stated_reason(answer: Seq<char>) -> Seq<char> {
    text::trimmed(without_colons(text::trimmed(after_word(answer))))
}

/// The verdict that a judge's answer states. What is neither a pass nor a fail
/// is no verdict. A fail without a reason quotes the answer itself.
pub open spec fn verdict_of(message: Seq<char>) -> Option<VerdictModel> {
    let answer = text::trimmed(message);
    let word = upper(bare_word(first_word(answer)));
    if word == "PASS"@ || word == "PASSED"@ {
        Some(VerdictModel::Passed)
    } else if word == "FAIL"@ || word == "FAILED"@ {
        if stated_reason(answer).len() == 0 {
            Some(VerdictModel::NotPassed(capped(answer, REASON_CHAR_BUDGET as nat)))
        } else {
            Some(
                VerdictModel::NotPassed(capped(stated_reason(answer), REASON_CHAR_BUDGET as nat)),
            )
        }
    } else {
        None
    }
}

/// The outcome of a verification pass, by how the model call went.
pub open spec fn conclusion_of(outcome: Result<Seq<char>, Seq<char>>) -> Result<
    VerdictModel,
    Seq<char>,
> {
    match outcome {
        Err(error) => Err("verification model call failed: "@ + error),
        Ok(message) => match verdict_of(message) {
            Some(verdict) => Ok(verdict),
            None => Err(
                "verification model answer was not PASS or FAIL: "@ + capped(
                    text::trimmed(message),
                    REASON_CHAR_BUDGET as nat,
                ),
            ),
        },
    }
}

fn word_end(chars: &Vec<char>) -> (len: usize)
    ensures
        len == word_len(chars@),
        len <= chars@.len(),
{
    let mut len: usize = 0;
    assert(chars@.subrange(0, chars@.len() as int) =~= chars@);
    while len < chars.len() && !(chars[len] == ' ' || chars[len] == '\n' || chars[len] == '\t'
        || chars[len] == ':')
        invariant
            len <= chars@.len(),
            word_len(chars@) == len + word_len(chars@.subrange(len as int, chars@.len() as int)),
        decreases chars@.len() - len,
    {
        let ghost rest = chars@.subrange(len as int, chars@.len() as int);
        assert(rest.subrange(1, rest.len() as int) =~= chars@.subrange(
            len + 1,
            chars@.len() as int,
        ));
        len = len + 1;
    }
    len
}

fn bare(word: &str) -> (kept: &str)
    ensures
        kept@ == bare_word(word@),
{
    let chars = chars_of(word);
    let mut to: usize = chars.len();
    assert(word@.take(word@.len() as int) =~= word@);
    while to > 0 && (chars[to - 1] == ':' || chars[to - 1] == '.' || chars[to - 1] == '!')
        invariant
            chars@ == word@,
            to <= chars@.len(),
            bare_word(word@) == bare_word(word@.take(to as int)),
        decreases to,
    {
        assert(word@.take(to as int).drop_last() =~= word@.take(to - 1));
        to = to - 1;
    }
    let kept = word.substring_char(0, to);
    assert(kept@ =~= word@.take(to as int));
    kept
}

fn drop_colons(text: &str) -> (kept: &str)
    ensures
        kept@ == without_colons(text@),
{
    let chars = chars_of(text);
    let mut from: usize = 0;
    assert(text@.subrange(0, text@.len() as int) =~= text@);
    while from < chars.len() && chars[from] == ':'
        invariant
            chars@ == text@,
            from <= chars@.len(),
            without_colons(text@) == without_colons(
                text@.subrange(from as int, text@.len() as int),
            ),
        decreases chars@.len() - from,
    {
        let ghost rest = text@.subrange(from as int, text@.len() as int);
        assert(rest.subrange(1, rest.len() as int) =~= text@.subrange(
            from + 1,
            text@.len() as int,
        ));
        from = from + 1;
    }
    text.substring_char(from, chars.len())
}

fn upper_is(word: &str, expected: &str) -> (same: bool)
    ensures
        same == (upper(word@) == expected@),
{
    let left = chars_of(word);
    let right = chars_of(expected);
    if left.len() != right.len() {
        return false;
    }
    let mut i: usize = 0;
    while i < left.len()
        invariant
            left@ == word@,
            right@ == expected@,
            left@.len() == right@.len(),
            i <= left@.len(),
            forall|j: int| 0 <= j < i ==> #[trigger] upper(word@)[j] == expected@[j],
        decreases left@.len() - i,
    {
        let c = left[i];
        let shown = if 'a' <= c && c <= 'z' {
            (c as u8 - 32) as char
        } else {
            c
        };
        assert(shown == upper(word@)[i as int]);
        if shown != right[i] {
            return false;
        }
        i = i + 1;
    }
    assert(upper(word@) =~= expected@);
    true
}

/// The verdict that a judge's answer states, if it states one.
pub fn parse_verdict(message: &str) -> (verdict: Option<CompletionVerdict>)
    ensures
        verdict.deep_view() == verdict_of(message@),
{
    let answer = trim(message);
    let chars = chars_of(answer);
    let end: usize = word_end(&chars);
    let first = answer.substring_char(0, end);
    assert(first@ =~= first_word(answer@));
    let word = bare(first);
    if upper_is(word, "PASS") || upper_is(word, "PASSED") {
        return Some(CompletionVerdict::Passed);
    }
    if upper_is(word, "FAIL") || upper_is(word, "FAILED") {
        let from: usize = if end < chars.len() {
            end + 1
        } else {
            end
        };
        let rest = answer.substring_char(from, chars.len());
        assert(rest@ =~= after_word(answer@));
        let reason = trim(drop_colons(trim(rest)));
        return if reason.is_empty() {
            Some(CompletionVerdict::NotPassed(cap_chars(answer, REASON_CHAR_BUDGET)))
        } else {
            Some(CompletionVerdict::NotPassed(cap_chars(reason, REASON_CHAR_BUDGET)))
        };
    }
    None
}

/// How a model call went, over models.
pub open spec fn call_model(outcome: Result<CompletionOutput, String>) -> Result<
    Seq<char>,
    Seq<char>,
> {
    match outcome {
        Ok(output) => Ok(output.message@),
        Err(error) => Err(error@),
    }
}

/// How a verification pass went, over models.
pub open spec fn pass_model(result: Result<CompletionVerdict, String>) -> Result<
    VerdictModel,
    Seq<char>,
> {
    match result {
        Ok(verdict) => Ok(verdict.deep_view()),
        Err(error) => Err(error@),
    }
}

/// Concludes a verification pass from how the model call went. A failed call
/// and an answer that is no verdict are errors: neither passes.
pub fn conclude(outcome: Result<CompletionOutput, String>) -> (result: Result<
    CompletionVerdict,
    String,
>)
    ensures
        pass_model(result) == conclusion_of(call_model(outcome)),
{
    match outcome {
        Err(error) => Err("verification model call failed: ".to_owned().concat(error.as_str())),
        Ok(output) => match parse_verdict(output.message.as_str()) {
            Some(verdict) => Ok(verdict),
            None => Err(
                "verification model answer was not PASS or FAIL: ".to_owned().concat(
                    cap_chars(
                        trim(output.message.as_str()),
                        REASON_CHAR_BUDGET,
                    ).as_str(),
                ),
            ),
        },
    }
}

/// Judges whether the conversation shows that the goal objective was achieved:
/// asks the model once, with the objective and the transcript, and concludes
/// from what comes back.
pub fn verify_goal_completion<M: ModelCompletion>(
    model_completion: &M,
    objective: &str,
    history: &[ResponseItem],
) -> (result: Result<CompletionVerdict, String>)
    ensures
        exists|request: CompletionRequest, outcome: Result<CompletionOutput, String>|
            {
                &&& #[trigger] call_ensures(M::complete, (model_completion, request), outcome)
                &&& request.input@ == judge_input(
                    objective@,
                    transcript_of(history.deep_view()),
                )
                &&& pass_model(result) == conclusion_of(call_model(outcome))
            },
{
    let transcript = render_transcript(history);
    let input = build_judge_input(objective, transcript.as_str());
    let request = CompletionRequest { input };
    let ghost asked = request;
    let outcome = model_completion.complete(request);
    let ghost got = outcome;
    let result = conclude(outcome);
    assert(call_ensures(M::complete, (model_completion, asked), got));
    result
}

/// Joining one more line costs its characters and a line feed.
proof fn lemma_joined_len(lines: Seq<Seq<char>>, line: Seq<char>)
    ensures
        text::joined(lines.push(line), "\n"@).len() == (if lines.len() == 0 {
            line.len()
        } else {
            text::joined(lines, "\n"@).len() + 1 + line.len()
        }),
{
    reveal_strlit("\n");
    assert(lines.push(line).drop_last() =~= lines);
}

/// A transcript quotes the newest lines, all of them that follow the oldest
/// one quoted, and with its line feeds has no more characters than its budget.
/// Where a line is left out, the newest such line would not have fit.
pub proof fn law_transcript_is_the_newest_that_fits(lines: Seq<Seq<char>>, budget: int)
    requires
        budget >= 0,
    ensures
        ({
            let kept = kept_lines(lines, budget);
            let dropped = lines.len() - kept.len();
            &&& kept.len() <= lines.len()
            &&& kept == lines.subrange(dropped, lines.len() as int)
            &&& text::joined(kept, "\n"@).len() <= budget
            &&& dropped > 0 ==> text::joined(
                lines.subrange(dropped - 1, lines.len() as int),
                "\n"@,
            ).len() > budget
        }),
    decreases lines.len(),
{
    let kept = kept_lines(lines, budget);
    let dropped = lines.len() - kept.len();
    if lines.len() == 0 {
        assert(kept =~= lines.subrange(0, 0));
    } else if lines.last().len() > budget {
        assert(kept =~= lines.subrange(lines.len() as int, lines.len() as int));
        assert(lines.subrange(dropped - 1, lines.len() as int) =~= seq![lines.last()]);
    } else {
        let rest = lines.drop_last();
        let left = budget - lines.last().len() - 1;
        let older = kept_lines(rest, left);
        lemma_joined_len(older, lines.last());
        if left >= 0 {
            law_transcript_is_the_newest_that_fits(rest, left);
        } else {
            assert(older =~= rest.subrange(rest.len() as int, rest.len() as int));
        }
        assert(kept =~= lines.subrange(dropped, lines.len() as int));
        if dropped > 0 {
            let more = rest.subrange(dropped - 1, rest.len() as int);
            lemma_joined_len(more, lines.last());
            assert(more.push(lines.last()) =~= lines.subrange(dropped - 1, lines.len() as int));
        }
    }
}

/// A transcript never has more characters than its budget.
pub proof fn law_transcript_is_bounded(items: Seq<ResponseItemModel>)
    ensures
        transcript_of(items).len() <= TRANSCRIPT_CHAR_BUDGET,
{
    law_transcript_is_the_newest_that_fits(rendered_lines(items), TRANSCRIPT_CHAR_BUDGET as int);
}

/// A capped text has no more characters than its cap, and a text within the cap
/// is not touched.
pub proof fn law_cap_is_hard(text: Seq<char>, max: nat)
    requires
        max > 0,
    ensures
        capped(text, max).len() <= max,
        text.len() <= max ==> capped(text, max) == text,
{
    reveal_strlit("\u{2026}");
}

/// A rendered item, its label included, never has more characters than its
/// budget.
pub proof fn law_rendered_items_are_bounded(item: ResponseItemModel)
    ensures
        rendered_item(item) matches Some(line) ==> line.len() <= ITEM_CHAR_BUDGET,
{
    reveal_strlit("\u{2026}");
}

/// Verification fails closed: a goal passes only if the model call succeeded
/// and its answer starts with the word that says so.
pub proof fn law_only_an_explicit_pass_passes(outcome: Result<Seq<char>, Seq<char>>)
    ensures
        conclusion_of(outcome) == Ok::<VerdictModel, Seq<char>>(VerdictModel::Passed) <==> {
            &&& outcome is Ok
            &&& {
                let word = upper(bare_word(first_word(text::trimmed(outcome->Ok_0))));
                word == "PASS"@ || word == "PASSED"@
            }
        },
{
}

/// The reason of a negative verdict, stated or not, never has more characters
/// than its budget.
pub proof fn law_reason_is_bounded(message: Seq<char>)
    ensures
        verdict_of(message) matches Some(VerdictModel::NotPassed(reason)) ==> reason.len()
            <= REASON_CHAR_BUDGET,
{
    reveal_strlit("\u{2026}");
}

/// An answer that is no verdict is quoted back within the same budget.
pub proof fn law_unreadable_answer_is_quoted_within_bounds(message: Seq<char>)
    requires
        verdict_of(message) is None,
    ensures
        ({
            let label = "verification model answer was not PASS or FAIL: "@;
            conclusion_of(Ok(message)) matches Err(error) && error.len() <= label.len()
                + REASON_CHAR_BUDGET
        }),
{
    reveal_strlit("\u{2026}");
}

/// Whether a part of a message is a text, of either kind, and says `text`.
pub open spec fn shows(part: ContentItemModel, text: Seq<char>) -> bool {
    part == (ContentItemModel::InputText { text }) || part == (ContentItemModel::OutputText {
        text,
    })
}

/// Whether `texts` are what the parts of a message at `places` say, in order,
/// and no other part is a text.
pub open spec fn lists_texts(
    content: Seq<ContentItemModel>,
    places: Seq<int>,
    texts: Seq<Seq<char>>,
) -> bool {
    &&& places.len() == texts.len()
    &&& forall|k: int|
        0 <= k < places.len() ==> {
            &&& 0 <= #[trigger] places[k] < content.len()
            &&& shows(content[places[k]], texts[k])
        }
    &&& forall|j: int, k: int|
        0 <= j < k < places.len() ==> #[trigger] places[j] < #[trigger] places[k]
    &&& forall|i: int|
        0 <= i < content.len() && (content[i] is InputText || content[i] is OutputText)
            ==> #[trigger] places.contains(i)
}

proof fn lemma_texts_are_those_listed(
    content: Seq<ContentItemModel>,
    places: Seq<int>,
    texts: Seq<Seq<char>>,
)
    requires
        lists_texts(content, places, texts),
    ensures
        message_texts(content) == texts,
    decreases content.len(),
{
    if content.len() == 0 {
        if places.len() > 0 {
            assert(0 <= places[0] < content.len());
        }
        assert(texts =~= Seq::<Seq<char>>::empty());
    } else {
        let last = content.len() - 1;
        let rest = content.drop_last();
        if content[last] is InputText || content[last] is OutputText {
            assert(places.contains(last));
            let k = places.index_of(last);
            assert(places[k] == last);
            let end = places.len() - 1;
            assert(k == end) by {
                if k < end {
                    assert(places[k] < places[end]);
                }
            }
            let fewer = places.drop_last();
            assert forall|j: int| 0 <= j < fewer.len() implies {
                &&& 0 <= #[trigger] fewer[j] < rest.len()
                &&& shows(rest[fewer[j]], texts.drop_last()[j])
            } by {
                assert(places[j] < places[end]);
            }
            assert forall|i: int|
                0 <= i < rest.len() && (rest[i] is InputText || rest[i] is OutputText) implies
                    #[trigger] fewer.contains(i) by {
                assert(places.contains(i));
                let at = places.index_of(i);
                assert(places[at] == i);
                assert(fewer[at] == i);
            }
            lemma_texts_are_those_listed(rest, fewer, texts.drop_last());
            assert(texts =~= texts.drop_last().push(texts[end]));
        } else {
            assert forall|j: int| 0 <= j < places.len() implies {
                &&& 0 <= #[trigger] places[j] < rest.len()
                &&& shows(rest[places[j]], texts[j])
            } by {
                if places[j] == last {
                    assert(shows(content[last], texts[j]));
                }
            }
            assert forall|i: int|
                0 <= i < rest.len() && (rest[i] is InputText || rest[i] is OutputText) implies
                    #[trigger] places.contains(i) by {
                assert(content[i] == rest[i]);
            }
            lemma_texts_are_those_listed(rest, places, texts);
        }
    }
}

/// A message is shown to the judge exactly when its texts say something, and
/// then as its role and every one of its texts, the user's and the assistant's
/// alike, in order and separated by blanks; parts that are no text add nothing.
pub proof fn law_a_message_shows_all_its_texts(
    role: Seq<char>,
    content: Seq<ContentItemModel>,
    places: Seq<int>,
    texts: Seq<Seq<char>>,
)
    requires
        lists_texts(content, places, texts),
    ensures
        ({
            let said = text::joined(texts, " "@);
            let line = rendered_item(ResponseItemModel::Message { role, content });
            &&& line is None <==> text::blank(said)
            &&& line is Some && role.len() + 2 + said.len() <= 4000 ==> line == Some(
                role + ": "@ + said,
            )
            &&& line is Some && role.len() + 2 + said.len() > 4000 ==> line == Some(
                capped(role + ": "@ + said, 4000),
            )
        }),
{
    reveal_strlit(": ");
    lemma_texts_are_those_listed(content, places, texts);
}

proof fn lemma_one_text_makes_it_said(texts: Seq<Seq<char>>, k: int, i: int)
    requires
        0 <= k < texts.len(),
        0 <= i < texts[k].len(),
    ensures
        exists|at: int|
            0 <= at < text::joined(texts, " "@).len() && #[trigger] text::joined(texts, " "@)[at]
                == texts[k][i],
    decreases texts.len(),
{
    let all = text::joined(texts, " "@);
    let rest = texts.drop_last();
    if k == texts.len() - 1 {
        let at = all.len() - texts[k].len() + i;
        assert(all[at] == texts[k][i]);
    } else {
        lemma_one_text_makes_it_said(rest, k, i);
        assert(rest[k] == texts[k]);
        let sub = text::joined(rest, " "@);
        let at = choose|at: int| 0 <= at < sub.len() && #[trigger] sub[at] == texts[k][i];
        assert(all[at] == sub[at]);
    }
}

/// A message with one text that is not blank, of either kind and anywhere among
/// its parts, is shown.
pub proof fn law_one_text_is_enough_to_show_a_message(
    role: Seq<char>,
    content: Seq<ContentItemModel>,
    at: int,
    said: Seq<char>,
)
    requires
        0 <= at < content.len(),
        shows(content[at], said),
        !text::blank(said),
    ensures
        rendered_item(ResponseItemModel::Message { role, content }) is Some,
{
    text::law_blank_text_is_all_white_space(said);
    let i = choose|i: int| 0 <= i < said.len() && !text::white_space(#[trigger] said[i]);
    let k = lemma_a_text_is_among_them(content, at, said);
    let texts = message_texts(content);
    lemma_one_text_makes_it_said(texts, k, i);
    let all = text::joined(texts, " "@);
    text::law_blank_text_is_all_white_space(all);
    let place = choose|place: int| 0 <= place < all.len() && #[trigger] all[place] == texts[k][i];
    assert(!text::white_space(all[place]));
}

proof fn lemma_a_text_is_among_them(
    content: Seq<ContentItemModel>,
    at: int,
    said: Seq<char>,
) -> (k: int)
    requires
        0 <= at < content.len(),
        shows(content[at], said),
    ensures
        0 <= k < message_texts(content).len(),
        message_texts(content)[k] == said,
    decreases content.len(),
{
    if at == content.len() - 1 {
        message_texts(content).len() - 1
    } else {
        lemma_a_text_is_among_them(content.drop_last(), at, said)
    }
}

/// The texts of a tool output are all its text parts, in order, and nothing
/// else.
pub proof fn law_an_output_has_all_its_texts(
    before: Seq<OutputContentItemModel>,
    part: OutputContentItemModel,
    after: Seq<OutputContentItemModel>,
)
    ensures
        output_texts(Seq::empty()) == Seq::<Seq<char>>::empty(),
        match part {
            OutputContentItemModel::InputText { text } => output_texts(before.push(part) + after)
                == output_texts(before).push(text) + output_texts(after),
            _ => output_texts(before.push(part) + after) == output_texts(before) + output_texts(
                after,
            ),
        },
    decreases after.len(),
{
    let all = before.push(part) + after;
    if after.len() == 0 {
        assert(all =~= before.push(part));
        assert(all.drop_last() =~= before);
    } else {
        law_an_output_has_all_its_texts(before, part, after.drop_last());
        assert(all.drop_last() =~= before.push(part) + after.drop_last());
        assert(all.last() == after.last());
    }
    match part {
        OutputContentItemModel::InputText { text } => {
            assert(output_texts(all) =~= output_texts(before).push(text) + output_texts(after));
        },
        _ => {
            assert(output_texts(all) =~= output_texts(before) + output_texts(after));
        },
    }
}

/// A call is always shown, by its tool and its arguments; an output exactly
/// when it says something, by what it says; nothing else is shown.
pub proof fn law_calls_and_outputs_are_shown(
    name: Seq<char>,
    arguments: Seq<char>,
    encrypted_function_args: Option<Seq<Seq<char>>>,
    call_id: Seq<char>,
    items: Seq<OutputContentItemModel>,
    said: Seq<char>,
)
    ensures
        rendered_item(
            ResponseItemModel::FunctionCall { name, arguments, encrypted_function_args, call_id },
        ) == Some(
            capped("assistant invoked tool "@ + name + " with arguments: "@ + arguments, 4000),
        ),
        rendered_item(
            ResponseItemModel::FunctionCallOutput { body: FunctionCallOutputBodyModel::Text(said) },
        ) == (if text::blank(said) {
            None
        } else {
            Some(capped("tool output: "@ + said, 4000))
        }),
        rendered_item(
            ResponseItemModel::FunctionCallOutput {
                body: FunctionCallOutputBodyModel::ContentItems(items),
            },
        ) == (if text::blank(text::joined(output_texts(items), " "@)) {
            None
        } else {
            Some(capped("tool output: "@ + text::joined(output_texts(items), " "@), 4000))
        }),
        rendered_item(ResponseItemModel::Other) is None,
{
}

/// A text beyond its cap keeps its start, one character short of the cap, and
/// then shows the ellipsis.
pub proof fn law_a_capped_text_keeps_its_start(text: Seq<char>, max: nat)
    requires
        0 < max < text.len(),
    ensures
        capped(text, max).len() == max,
        capped(text, max).last() == '\u{2026}',
        forall|i: int| 0 <= i < max - 1 ==> #[trigger] capped(text, max)[i] == text[i],
{
    text::law_cut_text_shows_the_ellipsis(text, (max - 1) as nat);
}

/// A history is rendered item by item, in order: one line for each item that is
/// shown, none for one that is not.
pub proof fn law_a_history_is_rendered_item_by_item(
    before: Seq<ResponseItemModel>,
    item: ResponseItemModel,
    after: Seq<ResponseItemModel>,
)
    ensures
        rendered_lines(Seq::empty()) == Seq::<Seq<char>>::empty(),
        match rendered_item(item) {
            Some(line) => rendered_lines(before.push(item) + after) == rendered_lines(before).push(
                line,
            ) + rendered_lines(after),
            None => rendered_lines(before.push(item) + after) == rendered_lines(before)
                + rendered_lines(after),
        },
    decreases after.len(),
{
    let all = before.push(item) + after;
    if after.len() == 0 {
        assert(all =~= before.push(item));
        assert(all.drop_last() =~= before);
    } else {
        law_a_history_is_rendered_item_by_item(before, item, after.drop_last());
        assert(all.drop_last() =~= before.push(item) + after.drop_last());
        assert(all.last() == after.last());
    }
    match rendered_item(item) {
        Some(line) => {
            assert(rendered_lines(all) =~= rendered_lines(before).push(line) + rendered_lines(
                after,
            ));
        },
        None => {
            assert(rendered_lines(all) =~= rendered_lines(before) + rendered_lines(after));
        },
    }
}

/// A transcript is the newest lines of its history, whole and one per line,
/// within sixteen thousand characters; one more line would exceed them. Where
/// the whole history fits, nothing is left out.
pub proof fn law_a_transcript_quotes_the_newest_lines(items: Seq<ResponseItemModel>)
    ensures
        ({
            let lines = rendered_lines(items);
            let end = lines.len() as int;
            &&& exists|from: int|
                {
                    &&& 0 <= from <= end
                    &&& transcript_of(items) == text::joined(
                        #[trigger] lines.subrange(from, end),
                        "\n"@,
                    )
                    &&& transcript_of(items).len() <= 16000
                    &&& from > 0 ==> text::joined(lines.subrange(from - 1, end), "\n"@).len()
                        > 16000
                }
            &&& text::joined(lines, "\n"@).len() <= 16000 ==> transcript_of(items) == text::joined(
                lines,
                "\n"@,
            )
        }),
{
    let lines = rendered_lines(items);
    let end = lines.len() as int;
    law_transcript_is_the_newest_that_fits(lines, 16000);
    let from = end - kept_lines(lines, 16000).len();
    assert(transcript_of(items) == text::joined(lines.subrange(from, end), "\n"@));
    if from > 0 {
        let more = lines.subrange(from - 1, end);
        if from == 1 {
            assert(more =~= lines);
        } else {
            let older = lines.subrange(0, from - 1);
            assert(older + more =~= lines);
            text::law_joining_keeps_every_part(older, more, Seq::empty(), "\n"@);
        }
    } else {
        assert(lines.subrange(0, end) =~= lines);
    }
}

/// The judge gets its instructions, then the goal, then the transcript.
pub proof fn law_the_judge_gets_goal_and_transcript(objective: Seq<char>, transcript: Seq<char>)
    ensures
        judge_input(objective, transcript)
            == "You are verifying whether a coding agent achieved its assigned goal before it marks the goal complete. Answer with exactly one line: \"PASS\" if the transcript shows the goal was fully achieved, or \"FAIL: <reason>\" if it was not. Do not credit plans, partial progress, or promises of future work."@
            + "\n\nGoal: "@ + objective + "\n\nConversation transcript:\n"@ + transcript,
{
}

/// The first word of an answer ends before the first blank, line feed, tab or
/// colon, or with the answer; what follows it starts behind that character.
pub proof fn law_the_first_word_ends_at_a_break(word: Seq<char>, end: char, rest: Seq<char>)
    requires
        forall|i: int|
            0 <= i < word.len() ==> #[trigger] word[i] != ' ' && word[i] != '\n' && word[i] != '\t'
                && word[i] != ':',
        end == ' ' || end == '\n' || end == '\t' || end == ':',
    ensures
        first_word(word.push(end) + rest) == word,
        after_word(word.push(end) + rest) == rest,
        first_word(word) == word,
        after_word(word) == Seq::<char>::empty(),
    decreases word.len(),
{
    let answer = word.push(end) + rest;
    lemma_word_len(word, end, rest);
    assert(answer.take(word.len() as int) =~= word);
    assert(answer.subrange(word.len() as int + 1, answer.len() as int) =~= rest);
    assert(word.take(word.len() as int) =~= word);
}

proof fn lemma_word_len(word: Seq<char>, end: char, rest: Seq<char>)
    requires
        forall|i: int|
            0 <= i < word.len() ==> #[trigger] word[i] != ' ' && word[i] != '\n' && word[i] != '\t'
                && word[i] != ':',
        end == ' ' || end == '\n' || end == '\t' || end == ':',
    ensures
        word_len(word.push(end) + rest) == word.len(),
        word_len(word) == word.len(),
    decreases word.len(),
{
    let answer = word.push(end) + rest;
    if word.len() == 0 {
        assert(answer[0] == end);
    } else {
        let tail = word.subrange(1, word.len() as int);
        assert forall|i: int| 0 <= i < tail.len() implies #[trigger] tail[i] != ' ' && tail[i]
            != '\n' && tail[i] != '\t' && tail[i] != ':' by {
            assert(tail[i] == word[i + 1]);
        }
        lemma_word_len(tail, end, rest);
        assert(answer[0] == word[0]);
        assert(answer.subrange(1, answer.len() as int) =~= tail.push(end) + rest);
    }
}

/// A word is read without the colons, full stops and exclamation marks that end
/// it, and with nothing else missing.
pub proof fn law_a_word_is_read_without_its_end_marks(word: Seq<char>, marks: Seq<char>)
    requires
        forall|i: int|
            0 <= i < marks.len() ==> #[trigger] marks[i] == ':' || marks[i] == '.' || marks[i]
                == '!',
        word.len() > 0 ==> word.last() != ':' && word.last() != '.' && word.last() != '!',
    ensures
        bare_word(word + marks) == word,
    decreases marks.len(),
{
    let all = word + marks;
    if marks.len() == 0 {
        assert(all =~= word);
    } else {
        assert(marks[marks.len() - 1] == all.last());
        law_a_word_is_read_without_its_end_marks(word, marks.drop_last());
        assert(all.drop_last() =~= word + marks.drop_last());
    }
}

/// A word is read in upper case: the letters between `a` and `z` as their
/// capitals, and every other character as it is.
pub proof fn law_case_is_only_that_of_letters(word: Seq<char>, i: int)
    requires
        0 <= i < word.len(),
    ensures
        upper(word).len() == word.len(),
        97 <= word[i] as u32 <= 122 ==> upper(word)[i] as u32 == word[i] as u32 - 32,
        !(97 <= word[i] as u32 <= 122) ==> upper(word)[i] == word[i],
{
}

/// The colons that a text starts with are left off, and nothing else.
pub proof fn law_leading_colons_are_left_off(colons: Seq<char>, text: Seq<char>)
    requires
        forall|i: int| 0 <= i < colons.len() ==> #[trigger] colons[i] == ':',
        text.len() > 0 ==> text[0] != ':',
    ensures
        without_colons(colons + text) == text,
    decreases colons.len(),
{
    let all = colons + text;
    if colons.len() == 0 {
        assert(all =~= text);
    } else {
        assert(colons[0] == ':');
        let fewer = colons.subrange(1, colons.len() as int);
        assert forall|i: int| 0 <= i < fewer.len() implies #[trigger] fewer[i] == ':' by {
            assert(fewer[i] == colons[i + 1]);
        }
        law_leading_colons_are_left_off(fewer, text);
        assert(all.subrange(1, all.len() as int) =~= fewer + text);
    }
}

proof fn lemma_verdict_words_differ()
    ensures
        "PASS"@ != "FAIL"@,
        "PASS"@ != "FAILED"@,
        "PASSED"@ != "FAIL"@,
        "PASSED"@ != "FAILED"@,
{
    reveal_strlit("PASS");
    reveal_strlit("PASSED");
    reveal_strlit("FAIL");
    reveal_strlit("FAILED");
    assert("PASS"@[0] != "FAIL"@[0]);
    assert("PASS"@[0] != "FAILED"@[0]);
    assert("PASSED"@[0] != "FAIL"@[0]);
    assert("PASSED"@[0] != "FAILED"@[0]);
}

/// An answer passes or fails by its first word, whatever its case and the marks
/// behind it. A fail gives the reason that follows, without the colons before
/// it and the white space around it, or the whole answer where none follows.
/// An answer that starts with another word is no verdict.
pub proof fn law_an_answer_is_judged_by_its_first_word(
    message: Seq<char>,
    word: Seq<char>,
    marks: Seq<char>,
    end: char,
    rest: Seq<char>,
)
    requires
        forall|i: int|
            0 <= i < word.len() ==> #[trigger] word[i] != ' ' && word[i] != '\n' && word[i] != '\t'
                && word[i] != ':',
        word.len() > 0 ==> word.last() != '.' && word.last() != '!',
        forall|i: int| 0 <= i < marks.len() ==> #[trigger] marks[i] == '.' || marks[i] == '!',
        end == ' ' || end == '\n' || end == '\t' || end == ':',
        ({
            ||| text::trimmed(message) == (word + marks).push(end) + rest
            ||| text::trimmed(message) == word + marks && rest.len() == 0
        }),
    ensures
        ({
            let verdict = verdict_of(message);
            let passes = upper(word) == "PASS"@ || upper(word) == "PASSED"@;
            let fails = upper(word) == "FAIL"@ || upper(word) == "FAILED"@;
            let reason = text::trimmed(without_colons(text::trimmed(rest)));
            &&& passes <==> verdict == Some(VerdictModel::Passed)
            &&& fails && reason.len() > 0 ==> verdict == Some(
                VerdictModel::NotPassed(capped(reason, 500)),
            )
            &&& fails && reason.len() == 0 ==> verdict == Some(
                VerdictModel::NotPassed(capped(text::trimmed(message), 500)),
            )
            &&& !passes && !fails ==> verdict is None
        }),
{
    lemma_verdict_words_differ();
    let first = word + marks;
    assert forall|i: int| 0 <= i < first.len() implies #[trigger] first[i] != ' ' && first[i]
        != '\n' && first[i] != '\t' && first[i] != ':' by {
        if i < word.len() {
            assert(first[i] == word[i]);
        } else {
            assert(first[i] == marks[i - word.len()]);
        }
    }
    law_the_first_word_ends_at_a_break(first, end, rest);
    if word.len() > 0 {
        assert(word[word.len() - 1] != ':');
    }
    law_a_word_is_read_without_its_end_marks(word, marks);
    assert(rest.len() == 0 ==> rest =~= Seq::<char>::empty());
}

/// A call that failed and an answer that is no verdict conclude with an error
/// that says so; a verdict is the conclusion as it is.
pub proof fn law_a_pass_concludes_with_its_verdict(message: Seq<char>, error: Seq<char>)
    ensures
        conclusion_of(Err(error)) == Err::<VerdictModel, Seq<char>>(
            "verification model call failed: "@ + error,
        ),
        verdict_of(message) matches Some(verdict) ==> conclusion_of(Ok(message)) == Ok::<
            VerdictModel,
            Seq<char>,
        >(verdict),
        verdict_of(message) is None ==> conclusion_of(Ok(message)) == Err::<
            VerdictModel,
            Seq<char>,
        >(
            "verification model answer was not PASS or FAIL: "@ + capped(
                text::trimmed(message),
                500,
            ),
        ),
{
}

/// A model call and a verification pass are modelled by what they gave, text
/// for text.
pub proof fn law_outcomes_are_modelled_by_what_they_hold(
    outcome: Result<CompletionOutput, String>,
    result: Result<CompletionVerdict, String>,
)
    ensures
        outcome matches Ok(output) ==> call_model(outcome) == Ok::<Seq<char>, Seq<char>>(
            output.message@,
        ),
        outcome matches Err(error) ==> call_model(outcome) == Err::<Seq<char>, Seq<char>>(error@),
        result matches Ok(CompletionVerdict::Passed) ==> pass_model(result) == Ok::<
            VerdictModel,
            Seq<char>,
        >(VerdictModel::Passed),
        result matches Ok(CompletionVerdict::NotPassed(reason)) ==> pass_model(result) == Ok::<
            VerdictModel,
            Seq<char>,
        >(VerdictModel::NotPassed(reason@)),
        result matches Err(error) ==> pass_model(result) == Err::<VerdictModel, Seq<char>>(error@),
{
}

/// Rendering a message gives its role and all its texts, each of them whole,
/// whether the user or the assistant wrote them, where that is within the budget
/// and says something.
pub proof fn law_rendering_a_message_loses_no_text(
    item: &ResponseItem,
    line: Option<String>,
    places: Seq<int>,
    texts: Seq<Seq<char>>,
)
    requires
        call_ensures(render_item, (item,), line),
        item is Message,
        lists_texts(item->content.deep_view(), places, texts),
    ensures
        line is None <==> text::blank(text::joined(texts, " "@)),
        line is Some && item->role@.len() + 2 + text::joined(texts, " "@).len() <= 4000
            ==> line->0@ == item->role@ + ": "@ + text::joined(texts, " "@),
{
    law_a_message_shows_all_its_texts(
        item->role@,
        item->content.deep_view(),
        places,
        texts,
    );
}

/// A history that fits is quoted to the judge line by line and whole, behind the
/// objective.
pub proof fn law_a_short_history_is_quoted_whole(
    items: &[ResponseItem],
    transcript: String,
    objective: &str,
    quoted: &str,
    input: String,
)
    requires
        call_ensures(render_transcript, (items,), transcript),
        call_ensures(build_judge_input, (objective, quoted), input),
    ensures
        transcript@ == transcript_of(items.deep_view()),
        input@ == judge_input(objective@, quoted@),
        text::joined(rendered_lines(items.deep_view()), "\n"@).len() <= 16000 ==> transcript@
            == text::joined(rendered_lines(items.deep_view()), "\n"@),
{
    law_a_transcript_quotes_the_newest_lines(items.deep_view());
}

/// A pass concludes as the judge's answer says: it passes exactly when the call
/// succeeded and the answer is a pass, fails with the answer's reason, and is an
/// error otherwise.
pub proof fn law_a_verification_goes_by_the_answer(
    message: &str,
    verdict: Option<CompletionVerdict>,
    outcome: Result<CompletionOutput, String>,
    result: Result<CompletionVerdict, String>,
)
    requires
        call_ensures(parse_verdict, (message,), verdict),
        call_ensures(conclude, (outcome,), result),
    ensures
        verdict is Some <==> verdict_of(message@) is Some,
        verdict matches Some(CompletionVerdict::Passed) ==> verdict_of(message@) == Some(
            VerdictModel::Passed,
        ),
        verdict matches Some(CompletionVerdict::NotPassed(reason)) ==> verdict_of(message@) == Some(
            VerdictModel::NotPassed(reason@),
        ),
        result is Ok <==> outcome is Ok && verdict_of(outcome->Ok_0.message@) is Some,
        result is Ok && result->Ok_0 is Passed ==> verdict_of(outcome->Ok_0.message@) == Some(
            VerdictModel::Passed,
        ),
        result matches Ok(CompletionVerdict::NotPassed(reason)) ==> verdict_of(
            outcome->Ok_0.message@,
        ) == Some(VerdictModel::NotPassed(reason@)),
        outcome matches Err(error) ==> result is Err && result->Err_0@
            == "verification model call failed: "@ + error@,
{
}

/// A goal is verified only by a model that was asked about it, with its
/// objective and the transcript of its history, and that answered with a pass.
pub proof fn law_only_the_judge_verifies_a_goal<M: ModelCompletion>(
    model_completion: &M,
    objective: &str,
    history: &[ResponseItem],
    result: Result<CompletionVerdict, String>,
)
    requires
        call_ensures(
            verify_goal_completion::<M>,
            (model_completion, objective, history),
            result,
        ),
    ensures
        result matches Ok(CompletionVerdict::Passed) ==> exists|
            request: CompletionRequest,
            output: CompletionOutput,
        |
            {
                &&& #[trigger] call_ensures(
                    M::complete,
                    (model_completion, request),
                    Ok::<CompletionOutput, String>(output),
                )
                &&& request.input@ == judge_input(objective@, transcript_of(history.deep_view()))
                &&& verdict_of(output.message@) == Some(VerdictModel::Passed)
            },
{
    let (request, outcome) = choose|
        request: CompletionRequest,
        outcome: Result<CompletionOutput, String>,
    |
        {
            &&& #[trigger] call_ensures(M::complete, (model_completion, request), outcome)
            &&& request.input@ == judge_input(objective@, transcript_of(history.deep_view()))
            &&& pass_model(result) == conclusion_of(call_model(outcome))
        };
    if let Ok(output) = outcome {
        assert(call_ensures(
            M::complete,
            (model_completion, request),
            Ok::<CompletionOutput, String>(output),
        ));
    }
}

} // verus!
