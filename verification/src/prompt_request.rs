//! Extraction of the user's actual request from prompts that carry an
//! IDE-style context prefix.
//!
//! Context is serialized into the raw prompt before a fixed delimiter; the
//! transcript shows what follows the last delimiter.

use crate::text;
use crate::text::rfind;
use crate::text::trim_end;
use crate::text::trim_start;
use vstd::prelude::*;
use vstd::utf8::encode_utf8;

verus! {

broadcast use vstd::string::group_string_axioms;

/// The delimiter that a request follows.
pub const PROMPT_REQUEST_BEGIN: &'static str = "## My request for Codex:";

/// Where the request of a message starts, counted in characters: at the first
/// character after the last delimiter that is not white space, or at the start
/// of a message without delimiter.
pub open spec fn request_start(message: Seq<char>) -> int {
    match text::last_index(message, PROMPT_REQUEST_BEGIN@) {
        Some(at) => {
            let rest = message.subrange(at + PROMPT_REQUEST_BEGIN@.len(), message.len() as int);
            message.len() - text::trimmed_start(rest).len()
        },
        None => 0,
    }
}

/// The request of a message: what follows the last delimiter, without white
/// space around it, or the whole of a message without delimiter.
pub open spec fn request_text(message: Seq<char>) -> Seq<char> {
    match text::last_index(message, PROMPT_REQUEST_BEGIN@) {
        Some(at) => text::trimmed(
            message.subrange(at + PROMPT_REQUEST_BEGIN@.len(), message.len() as int),
        ),
        None => message,
    }
}

proof fn lemma_last_index_fits(whole: Seq<char>, part: Seq<char>, from: int)
    requires
        from + part.len() <= whole.len(),
    ensures
        text::last_index_to(whole, part, from) matches Some(at) ==> 0 <= at && at + part.len()
            <= whole.len(),
    decreases from + 1,
{
    if from >= 0 && !text::occurs_at(whole, part, from) {
        lemma_last_index_fits(whole, part, from - 1);
    }
}

/// The request of a message, with the byte offset at which it starts.
pub fn extract_prompt_request_with_offset(message: &str) -> (found: (&str, usize))
    ensures
        found.0@ == request_text(message@),
        found.1 == encode_utf8(message@.take(request_start(message@))).len(),
{
    proof {
        reveal_strlit("## My request for Codex:");
        lemma_last_index_fits(
            message@,
            PROMPT_REQUEST_BEGIN@,
            message@.len() - PROMPT_REQUEST_BEGIN@.len(),
        );
    }
    let at: usize = match rfind(message, PROMPT_REQUEST_BEGIN) {
        Some(at) => at,
        None => {
            proof {
                assert(message@.take(0) =~= Seq::<char>::empty());
                assert(encode_utf8(Seq::<char>::empty()) =~= Seq::<u8>::empty());
            }
            return (message, 0);
        },
    };
    let total: usize = message.unicode_len();
    let after: usize = at + PROMPT_REQUEST_BEGIN.unicode_len();
    let rest = message.substring_char(after, total);
    let (skipped, kept) = trim_start(rest);
    let start: usize = after + skipped;
    let before = message.substring_char(0, start);
    assert(before@ =~= message@.take(request_start(message@)));
    (trim_end(kept), before.as_bytes().len())
}

proof fn lemma_encoding_splits(first: Seq<char>, second: Seq<char>)
    ensures
        encode_utf8(first + second) == encode_utf8(first) + encode_utf8(second),
    decreases first.len(),
{
    if first.len() == 0 {
        assert(first + second =~= second);
        assert(encode_utf8(first) + encode_utf8(second) =~= encode_utf8(second));
    } else {
        lemma_encoding_splits(first.drop_first(), second);
        assert((first + second).drop_first() =~= first.drop_first() + second);
        assert((first + second)[0] == first[0]);
        assert(encode_utf8(first + second) =~= encode_utf8(first) + encode_utf8(second));
    }
}

proof fn lemma_trimmed_start_is_a_suffix(text: Seq<char>)
    ensures
        text::trimmed_start(text).len() <= text.len(),
        text::trimmed_start(text) == text.subrange(
            text.len() - text::trimmed_start(text).len(),
            text.len() as int,
        ),
    decreases text.len(),
{
    if text.len() > 0 && text::white_space(text[0]) {
        let rest = text.subrange(1, text.len() as int);
        lemma_trimmed_start_is_a_suffix(rest);
        let kept = text::trimmed_start(rest);
        assert(kept =~= text.subrange(text.len() - kept.len(), text.len() as int));
    } else {
        assert(text =~= text.subrange(0, text.len() as int));
    }
}

proof fn lemma_trimmed_end_is_a_prefix(text: Seq<char>)
    ensures
        text::trimmed_end(text).len() <= text.len(),
        text::trimmed_end(text) == text.take(text::trimmed_end(text).len() as int),
    decreases text.len(),
{
    if text.len() > 0 && text::white_space(text[text.len() - 1]) {
        let rest = text.subrange(0, text.len() - 1);
        lemma_trimmed_end_is_a_prefix(rest);
        let kept = text::trimmed_end(rest);
        assert(kept =~= text.take(kept.len() as int));
    } else {
        assert(text =~= text.take(text.len() as int));
    }
}

/// The offset of a request points at it: the bytes of the message from there
/// on start with the bytes of the request.
pub proof fn law_offset_points_at_the_request(message: Seq<char>)
    ensures
        ({
            let offset = encode_utf8(message.take(request_start(message))).len() as int;
            let request = encode_utf8(request_text(message));
            &&& offset + request.len() <= encode_utf8(message).len()
            &&& encode_utf8(message).subrange(offset, offset + request.len()) == request
        }),
{
    let start = request_start(message);
    let request = request_text(message);
    lemma_last_index_fits(
        message,
        PROMPT_REQUEST_BEGIN@,
        message.len() - PROMPT_REQUEST_BEGIN@.len(),
    );
    match text::last_index(message, PROMPT_REQUEST_BEGIN@) {
        Some(at) => {
            let rest = message.subrange(at + PROMPT_REQUEST_BEGIN@.len(), message.len() as int);
            lemma_trimmed_start_is_a_suffix(rest);
            let kept = text::trimmed_start(rest);
            lemma_trimmed_end_is_a_prefix(kept);
            assert(kept =~= message.subrange(start, message.len() as int));
        },
        None => {},
    }
    let before = message.take(start);
    let after = message.subrange(start + request.len(), message.len() as int);
    assert(message =~= before + (request + after));
    lemma_encoding_splits(before, request + after);
    lemma_encoding_splits(request, after);
    let offset = encode_utf8(before).len() as int;
    assert(encode_utf8(message).subrange(offset, offset + encode_utf8(request).len())
        =~= encode_utf8(request));
}

/// The request is what stands behind the last delimiter, character for
/// character and without the white space around it, and starts where it stands;
/// a message without delimiter is the request, all of it.
pub proof fn law_the_request_follows_the_last_delimiter(
    context: Seq<char>,
    before: Seq<char>,
    request: Seq<char>,
    after: Seq<char>,
    plain: Seq<char>,
)
    requires
        forall|i: int| 0 <= i < before.len() ==> text::white_space(#[trigger] before[i]),
        forall|i: int| 0 <= i < after.len() ==> text::white_space(#[trigger] after[i]),
        request.len() > 0 ==> !text::white_space(request[0]) && !text::white_space(request.last()),
        forall|i: int|
            context.len() < i ==> #[trigger] (context + "## My request for Codex:"@ + (before
                + request + after)).subrange(i, i + 24) != "## My request for Codex:"@,
        forall|i: int|
            0 <= i && i + 24 <= plain.len() ==> #[trigger] plain.subrange(i, i + 24)
                != "## My request for Codex:"@,
    ensures
        ({
            let message = context + "## My request for Codex:"@ + (before + request + after);
            &&& request_text(message) == request
            &&& request.len() > 0 ==> request_start(message) == context.len() + 24 + before.len()
            &&& request.len() == 0 ==> request_start(message) == message.len()
            &&& request_text(plain) == plain
            &&& request_start(plain) == 0
        }),
{
    reveal_strlit("## My request for Codex:");
    let begin = "## My request for Codex:"@;
    assert(begin.len() == 24);
    let tail = before + request + after;
    let message = context + begin + tail;
    text::law_backward_search_finds_the_last_place(message, begin);
    let at = context.len() as int;
    assert(message.subrange(at, at + 24) =~= begin);
    assert(text::last_index(message, begin) == Some(at));
    assert(message.subrange(at + 24, message.len() as int) =~= tail);
    text::law_trimming_keeps_what_is_between(before, request, after);
    if request.len() > 0 {
        assert forall|i: int| 0 <= i < before.len() implies text::white_space(
            #[trigger] tail[i],
        ) by {
            assert(tail[i] == before[i]);
        }
        assert(tail[before.len() as int] == request[0]);
        text::law_leading_white_space_is_left_off(tail, before.len() as int);
    } else {
        assert forall|i: int| 0 <= i < tail.len() implies text::white_space(#[trigger] tail[i]) by {
            if i < before.len() {
                assert(tail[i] == before[i]);
            } else {
                assert(tail[i] == after[i - before.len()]);
            }
        }
        text::law_leading_white_space_is_left_off(tail, tail.len() as int);
    }
    text::law_backward_search_finds_the_last_place(plain, begin);
}

/// Extracting a request gives the request and the byte offset at which it
/// starts.
pub proof fn law_an_extracted_request_is_the_request(message: &str, found: (&str, usize))
    requires
        call_ensures(extract_prompt_request_with_offset, (message,), found),
    ensures
        found.0@ == request_text(message@),
        found.1 == encode_utf8(message@.take(request_start(message@))).len(),
        text::last_index(message@, "## My request for Codex:"@) is None ==> found.1 == 0,
{
    assert(message@.take(0) =~= Seq::<char>::empty());
    assert(encode_utf8(Seq::<char>::empty()) =~= Seq::<u8>::empty());
}

} // verus!
