//! Stall bounding, workspace gating and staged teardown for headless children.
//!
//! A child that wedges without exiting would stall its turn with no ceiling,
//! and killing only the direct child could strand shells that it spawned. A
//! silent stream is therefore failed as stalled, and teardown goes in stages:
//! a request to terminate, a grace period, and a kill of the process tree.

use crate::text;
use crate::text::chars_of;
use crate::text::parse_unsigned;
use crate::text::str_eq;
use crate::text::trim;
use vstd::prelude::*;

verus! {

broadcast use vstd::string::group_string_axioms;

/// How long, in seconds, a stream may stay silent before the turn is failed as
/// stalled. A tool command can legitimately stay silent for ten minutes, and
/// the default clears that with headroom.
pub const DEFAULT_ZCODE_STREAM_IDLE_TIMEOUT: u64 = 900;

/// Grace period, in seconds, between asking a child to shut down and killing
/// its process tree.
pub const TEARDOWN_GRACE_PERIOD: u64 = 2;

/// The idle bound that a `ZCODE_STREAM_IDLE_TIMEOUT_SECS` value sets.
pub open spec fn idle_timeout(value: Option<Seq<char>>) -> Option<u64> {
    match value {
        None => Some(DEFAULT_ZCODE_STREAM_IDLE_TIMEOUT),
        Some(value) => match text::unsigned_number(text::trimmed(value)) {
            Some(secs) => if secs == 0 {
                None
            } else {
                Some(secs)
            },
            None => Some(DEFAULT_ZCODE_STREAM_IDLE_TIMEOUT),
        },
    }
}

/// The idle bound, in seconds, that a `ZCODE_STREAM_IDLE_TIMEOUT_SECS` value
/// sets. Unset or invalid values fall back to the default; `0` disables the
/// bound.
pub fn zcode_idle_timeout_from_value(value: Option<&str>) -> (timeout: Option<u64>)
    ensures
        timeout == idle_timeout(value.deep_view()),
{
    match value {
        None => Some(DEFAULT_ZCODE_STREAM_IDLE_TIMEOUT),
        Some(value) => match parse_unsigned(trim(value)) {
            Some(secs) => if secs == 0 {
                None
            } else {
                Some(secs)
            },
            None => Some(DEFAULT_ZCODE_STREAM_IDLE_TIMEOUT),
        },
    }
}

/// How long, in seconds, a collector waits for session events before it
/// declares the turn stalled: the idle bound, or its default where the bound
/// is disabled.
pub fn event_timeout_from_value(value: Option<&str>) -> (timeout: u64)
    ensures
        timeout == (match idle_timeout(value.deep_view()) {
            Some(secs) => secs,
            None => DEFAULT_ZCODE_STREAM_IDLE_TIMEOUT,
        }),
{
    match zcode_idle_timeout_from_value(value) {
        Some(secs) => secs,
        None => DEFAULT_ZCODE_STREAM_IDLE_TIMEOUT,
    }
}

/// `path` without the slashes it ends in.
pub open spec fn without_end_slashes(path: Seq<char>) -> Seq<char>
    decreases path.len(),
{
    if path.len() > 0 && path.last() == '/' {
        without_end_slashes(path.drop_last())
    } else {
        path
    }
}

/// What identifies a working directory: its path, without white space around
/// it and without slashes at its end. A path of nothing but slashes is the
/// root.
pub open spec fn session_key(cwd: Seq<char>) -> Seq<char> {
    let path = text::trimmed(cwd);
    if path.len() > 0 && without_end_slashes(path).len() == 0 {
        "/"@
    } else {
        without_end_slashes(path)
    }
}

/// What identifies a working directory: the same even when one caller has a
/// trailing slash and the other does not.
pub fn workspace_session_key(cwd: &str) -> (key: String)
    ensures
        key@ == session_key(cwd@),
{
    let trimmed = trim(cwd);
    let chars = chars_of(trimmed);
    let mut to: usize = chars.len();
    assert(trimmed@.take(trimmed@.len() as int) =~= trimmed@);
    while to > 0 && chars[to - 1] == '/'
        invariant
            chars@ == trimmed@,
            to <= chars@.len(),
            without_end_slashes(trimmed@) == without_end_slashes(trimmed@.take(to as int)),
        decreases to,
    {
        assert(trimmed@.take(to as int).drop_last() =~= trimmed@.take(to - 1));
        to = to - 1;
    }
    if to == 0 && chars.len() > 0 {
        return "/".to_owned();
    }
    let kept = trimmed.substring_char(0, to);
    assert(kept@ =~= trimmed@.take(to as int));
    kept.to_owned()
}

/// Assigns one slot to each working directory. A slot stands for a directory's
/// lock: at most one headless session runs in a directory at a time.
#[derive(Debug)]
pub struct WorkspaceSessionGates {
    keys: Vec<String>,
}

impl View for WorkspaceSessionGates {
    type V = Seq<Seq<char>>;

    closed spec fn view(&self) -> Seq<Seq<char>> {
        self.keys.deep_view()
    }
}

impl WorkspaceSessionGates {
    /// No two slots belong to the same directory.
    #[verifier::type_invariant]
    spec fn well_formed(self) -> bool {
        self.keys.deep_view().no_duplicates()
    }

    /// No directory has a slot yet.
    pub fn new() -> (gates: WorkspaceSessionGates)
        ensures
            gates@ == Seq::<Seq<char>>::empty(),
    {
        let gates = WorkspaceSessionGates { keys: Vec::new() };
        assert(gates@ =~= Seq::<Seq<char>>::empty());
        gates
    }

    /// The slot of a working directory; a new directory gets the next one.
    /// Slots are never taken away again.
    pub fn slot(&mut self, cwd: &str) -> (slot: usize)
        ensures
            final(self)@.no_duplicates(),
            slot < final(self)@.len(),
            final(self)@[slot as int] == session_key(cwd@),
            final(self)@ == (if old(self)@.contains(session_key(cwd@)) {
                old(self)@
            } else {
                old(self)@.push(session_key(cwd@))
            }),
    {
        proof {
            use_type_invariant(&*self);
        }
        let key = workspace_session_key(cwd);
        let mut i: usize = 0;
        while i < self.keys.len()
            invariant
                *self == *old(self),
                key@ == session_key(cwd@),
                self@.no_duplicates(),
                i <= self.keys@.len(),
                forall|j: int| 0 <= j < i ==> #[trigger] self@[j] != key@,
            decreases self.keys@.len() - i,
        {
            if str_eq(self.keys[i].as_str(), key.as_str()) {
                assert(self@[i as int] == key@);
                return i;
            }
            assert(self@[i as int] != key@);
            i = i + 1;
        }
        assert(!self@.contains(key@));
        let mut keys: Vec<String> = Vec::new();
        std::mem::swap(&mut keys, &mut self.keys);
        keys.push(key);
        assert(keys.deep_view() =~= old(self)@.push(key@));
        self.keys = keys;
        i
    }
}

/// How the read of one line from a child's stream ended.
#[derive(Debug)]
pub enum StreamRead {
    Line(String),
    /// The stream is closed.
    Closed,
    /// The read failed.
    Failed,
    /// Nothing arrived within this many milliseconds.
    Elapsed(u64),
}

/// One line from a child's stream, bounded by the idle timeout.
#[derive(Debug, PartialEq)]
pub enum ZcodeStreamLine {
    Line(String),
    /// The stream closed or failed; treated as its end.
    Eof,
    /// No line arrived within this many milliseconds; the child is presumed
    /// wedged.
    Stalled(u64),
}

/// What the end of a read means. Read errors count as the end of the stream:
/// the bridge tolerates noise on it.
pub fn stream_line(read: StreamRead) -> (line: ZcodeStreamLine)
    ensures
        line == (match read {
            StreamRead::Line(text) => ZcodeStreamLine::Line(text),
            StreamRead::Closed => ZcodeStreamLine::Eof,
            StreamRead::Failed => ZcodeStreamLine::Eof,
            StreamRead::Elapsed(window) => ZcodeStreamLine::Stalled(window),
        }),
{
    match read {
        StreamRead::Line(text) => ZcodeStreamLine::Line(text),
        StreamRead::Closed => ZcodeStreamLine::Eof,
        StreamRead::Failed => ZcodeStreamLine::Eof,
        StreamRead::Elapsed(window) => ZcodeStreamLine::Stalled(window),
    }
}

/// A stage of tearing a child down.
#[derive(Clone, Copy, Debug, PartialEq, Eq, Structural)]
pub enum DisposeStage {
    /// Ask the process group to terminate; that it could not be asked does not
    /// hold the teardown up.
    Terminate,
    /// Wait for the child to exit, but no longer than the grace period.
    Grace,
    /// Kill the child and every process it spawned.
    ForceKill,
    /// Wait for the child to exit.
    Reap,
    /// The child is gone, or could not be killed.
    Over,
}

/// How a stage of a teardown went.
#[derive(Clone, Copy, Debug, PartialEq, Eq, Structural)]
pub enum DisposeOutcome {
    Done,
    Failed,
    /// The grace period elapsed.
    Elapsed,
}

/// The stage after a stage that went some way.
pub open spec fn dispose_after(stage: DisposeStage, outcome: DisposeOutcome) -> DisposeStage {
    match stage {
        DisposeStage::Terminate => DisposeStage::Grace,
        DisposeStage::Grace => if outcome == DisposeOutcome::Elapsed {
            DisposeStage::ForceKill
        } else {
            DisposeStage::Over
        },
        DisposeStage::ForceKill => if outcome == DisposeOutcome::Failed {
            DisposeStage::Over
        } else {
            DisposeStage::Reap
        },
        DisposeStage::Reap => DisposeStage::Over,
        DisposeStage::Over => DisposeStage::Over,
    }
}

impl DisposeStage {
    /// The stage that follows this one, by how this one went.
    pub fn next(self, outcome: DisposeOutcome) -> (next: DisposeStage)
        ensures
            next == dispose_after(self, outcome),
    {
        match self {
            DisposeStage::Terminate => DisposeStage::Grace,
            DisposeStage::Grace => match outcome {
                DisposeOutcome::Elapsed => DisposeStage::ForceKill,
                _ => DisposeStage::Over,
            },
            DisposeStage::ForceKill => match outcome {
                DisposeOutcome::Failed => DisposeStage::Over,
                _ => DisposeStage::Reap,
            },
            DisposeStage::Reap => DisposeStage::Over,
            DisposeStage::Over => DisposeStage::Over,
        }
    }
}

/// The last `cap` of `bytes`, or all of them when there are fewer.
pub open spec fn last_bytes(bytes: Seq<u8>, cap: nat) -> Seq<u8> {
    if bytes.len() <= cap {
        bytes
    } else {
        bytes.subrange(bytes.len() - cap, bytes.len() as int)
    }
}

/// Adds what a child wrote to the tail of its error output, of which only the
/// last `cap` bytes are kept.
pub fn push_stderr_tail(tail: &mut Vec<u8>, chunk: &[u8], cap: usize)
    ensures
        final(tail)@ == last_bytes(old(tail)@ + chunk@, cap as nat),
{
    let ghost all = tail@ + chunk@;
    let mut i: usize = 0;
    assert(tail@ =~= old(tail)@ + chunk@.take(0));
    while i < chunk.len()
        invariant
            i <= chunk@.len(),
            tail@ == old(tail)@ + chunk@.take(i as int),
        decreases chunk@.len() - i,
    {
        tail.push(chunk[i]);
        assert(tail@ =~= old(tail)@ + chunk@.take(i + 1));
        i = i + 1;
    }
    assert(chunk@.take(chunk@.len() as int) =~= chunk@);
    if tail.len() > cap {
        let excess: usize = tail.len() - cap;
        let kept = tail.split_off(excess);
        *tail = kept;
        assert(tail@ =~= last_bytes(all, cap as nat));
    }
}

proof fn lemma_trimmed_start_before_slash(path: Seq<char>)
    requires
        path.len() > 0,
        !text::white_space(path.last()),
    ensures
        text::trimmed_start(path.push('/')) == text::trimmed_start(path).push('/'),
        text::trimmed_start(path).len() > 0,
        text::trimmed_start(path).last() == path.last(),
    decreases path.len(),
{
    if text::white_space(path[0]) {
        let rest = path.subrange(1, path.len() as int);
        assert(path.len() > 1);
        assert(rest.last() == path.last());
        lemma_trimmed_start_before_slash(rest);
        assert(path.push('/').subrange(1, path.len() as int + 1) =~= rest.push('/'));
    }
}

/// A directory has the same key with and without a trailing slash, the root
/// too. Left out is a path that is empty or ends in white space, which a slash
/// would make part of the path.
pub proof fn law_trailing_slash_does_not_matter(cwd: Seq<char>)
    requires
        cwd.len() > 0,
        !text::white_space(cwd.last()),
    ensures
        session_key(cwd.push('/')) == session_key(cwd),
{
    lemma_trimmed_start_before_slash(cwd);
    let path = text::trimmed_start(cwd);
    assert(text::trimmed(cwd) == path);
    assert(text::trimmed(cwd.push('/')) == path.push('/'));
    assert(path.push('/').drop_last() =~= path);
}

/// Two directories share a slot exactly when they have the same key, so a
/// directory's lock keeps other sessions out of it and out of nothing else.
pub proof fn law_slots_are_per_directory(keys: Seq<Seq<char>>, first: int, second: int)
    requires
        keys.no_duplicates(),
        0 <= first < keys.len(),
        0 <= second < keys.len(),
    ensures
        first == second <==> keys[first] == keys[second],
{
}

/// A teardown ends: after four stages it is over, however they went.
pub proof fn law_teardown_ends(
    first: DisposeOutcome,
    second: DisposeOutcome,
    third: DisposeOutcome,
    fourth: DisposeOutcome,
)
    ensures
        dispose_after(
            dispose_after(
                dispose_after(dispose_after(DisposeStage::Terminate, first), second),
                third,
            ),
            fourth,
        ) is Over,
{
}

/// A child that outlives the grace period is killed, and only such a child is.
pub proof fn law_only_survivors_are_killed(stage: DisposeStage, outcome: DisposeOutcome)
    ensures
        dispose_after(stage, outcome) is ForceKill <==> stage is Grace && outcome is Elapsed,
{
}

/// The kept tail never exceeds its cap, and it is what the child wrote last.
pub proof fn law_stderr_tail_is_bounded(bytes: Seq<u8>, cap: nat)
    ensures
        last_bytes(bytes, cap).len() <= cap,
        exists|dropped: Seq<u8>| bytes == #[trigger] (dropped + last_bytes(bytes, cap)),
{
    let kept = last_bytes(bytes, cap);
    let dropped = bytes.take(bytes.len() - kept.len());
    assert(bytes =~= dropped + kept);
}

/// The idle bound is fifteen minutes unless a number is set, white space aside;
/// zero disables it and any other number is the bound in seconds.
pub proof fn law_the_idle_bound_is_the_number_set(
    before: Seq<char>,
    value: Seq<char>,
    after: Seq<char>,
)
    requires
        forall|i: int| 0 <= i < before.len() ==> text::white_space(#[trigger] before[i]),
        forall|i: int| 0 <= i < after.len() ==> text::white_space(#[trigger] after[i]),
        value.len() > 0 ==> !text::white_space(value[0]) && !text::white_space(value.last()),
    ensures
        idle_timeout(None) == Some(900u64),
        ({
            let bound = idle_timeout(Some(before + value + after));
            let number = text::unsigned_number(value);
            &&& number is None ==> bound == Some(900u64)
            &&& number == Some(0u64) ==> bound is None
            &&& number is Some && number->0 > 0 ==> bound == number
        }),
        TEARDOWN_GRACE_PERIOD == 2,
{
    text::law_trimming_keeps_what_is_between(before, value, after);
}

/// A directory is known by its path, character for character, without the white
/// space around it and the slashes at its end; slashes alone are the root.
pub proof fn law_a_directory_is_known_by_its_path(
    before: Seq<char>,
    path: Seq<char>,
    slashes: Seq<char>,
    after: Seq<char>,
)
    requires
        forall|i: int| 0 <= i < before.len() ==> text::white_space(#[trigger] before[i]),
        forall|i: int| 0 <= i < after.len() ==> text::white_space(#[trigger] after[i]),
        forall|i: int| 0 <= i < slashes.len() ==> #[trigger] slashes[i] == '/',
        path.len() > 0 ==> !text::white_space(path[0]) && path.last() != '/' && (slashes.len() > 0
            || !text::white_space(path.last())),
    ensures
        path.len() > 0 ==> session_key(before + (path + slashes) + after) == path,
        path.len() == 0 && slashes.len() > 0 ==> session_key(before + (path + slashes) + after)
            == seq!['/'],
        path.len() == 0 && slashes.len() == 0 ==> session_key(before + (path + slashes) + after)
            == Seq::<char>::empty(),
{
    let whole = path + slashes;
    if whole.len() > 0 {
        if slashes.len() > 0 {
            assert(whole.last() == slashes[slashes.len() - 1]);
            assert(slashes[0] == '/');
        } else {
            assert(whole.last() == path.last());
        }
        if path.len() > 0 {
            assert(whole[0] == path[0]);
        } else {
            assert(whole[0] == slashes[0]);
        }
    }
    text::law_trimming_keeps_what_is_between(before, whole, after);
    lemma_slashes_are_left_off(path, slashes);
    reveal_strlit("/");
    assert("/"@ =~= seq!['/']);
    if path.len() == 0 {
        assert(path =~= Seq::<char>::empty());
    }
}

proof fn lemma_slashes_are_left_off(path: Seq<char>, slashes: Seq<char>)
    requires
        forall|i: int| 0 <= i < slashes.len() ==> #[trigger] slashes[i] == '/',
        path.len() > 0 ==> path.last() != '/',
    ensures
        without_end_slashes(path + slashes) == path,
    decreases slashes.len(),
{
    let whole = path + slashes;
    if slashes.len() == 0 {
        assert(whole =~= path);
    } else {
        assert(whole.last() == slashes[slashes.len() - 1]);
        lemma_slashes_are_left_off(path, slashes.drop_last());
        assert(whole.drop_last() =~= path + slashes.drop_last());
    }
}

/// A teardown goes from the request through the grace period, and only for a
/// child that outlives it through the kill, to its end.
pub proof fn law_a_teardown_goes_in_stages(outcome: DisposeOutcome)
    ensures
        dispose_after(DisposeStage::Terminate, outcome) is Grace,
        dispose_after(DisposeStage::Grace, DisposeOutcome::Elapsed) is ForceKill,
        outcome != DisposeOutcome::Elapsed ==> dispose_after(DisposeStage::Grace, outcome) is Over,
        dispose_after(DisposeStage::ForceKill, DisposeOutcome::Failed) is Over,
        outcome != DisposeOutcome::Failed ==> dispose_after(DisposeStage::ForceKill, outcome)
            is Reap,
        dispose_after(DisposeStage::Reap, outcome) is Over,
        dispose_after(DisposeStage::Over, outcome) is Over,
{
}

/// As much of what a child wrote last is kept as the cap allows, byte for byte.
pub proof fn law_the_last_bytes_are_kept(bytes: Seq<u8>, cap: nat)
    ensures
        bytes.len() <= cap ==> last_bytes(bytes, cap) == bytes,
        bytes.len() > cap ==> last_bytes(bytes, cap).len() == cap && forall|i: int|
            0 <= i < cap ==> #[trigger] last_bytes(bytes, cap)[i] == bytes[bytes.len() - cap + i],
{
}

/// A collector waits for as long as the idle bound says, and for fifteen minutes
/// where there is none.
pub proof fn law_a_collector_always_has_a_bound(value: Option<&str>, timeout: u64)
    requires
        call_ensures(event_timeout_from_value, (value,), timeout),
    ensures
        idle_timeout(value.deep_view()) matches Some(secs) ==> timeout == secs,
        idle_timeout(value.deep_view()) is None ==> timeout == 900,
{
}

/// A line is handed on as it is; a closed and a failed stream are at their end;
/// a silent one is stalled, for as long as it was waited for.
pub proof fn law_a_read_means_what_it_gave(read: StreamRead, line: ZcodeStreamLine)
    requires
        call_ensures(stream_line, (read,), line),
    ensures
        read matches StreamRead::Line(text) ==> line == ZcodeStreamLine::Line(text),
        line is Eof <==> read is Closed || read is Failed,
        read matches StreamRead::Elapsed(window) ==> line == ZcodeStreamLine::Stalled(window),
{
}

/// A directory that has a slot gets it again; a new one gets a slot of its own,
/// and no other directory's slot changes.
pub proof fn law_a_directory_keeps_its_slot(
    gates: &mut WorkspaceSessionGates,
    cwd: &str,
    slot: usize,
    other: int,
)
    requires
        call_ensures(WorkspaceSessionGates::slot, (gates, cwd), slot),
        0 <= other < old(gates)@.len(),
    ensures
        slot < final(gates)@.len(),
        final(gates)@[slot as int] == session_key(cwd@),
        final(gates)@[other] == old(gates)@[other],
        slot == other <==> old(gates)@[other] == session_key(cwd@),
        final(gates)@.len() <= old(gates)@.len() + 1,
{
    if old(gates)@[other] == session_key(cwd@) {
        assert(final(gates)@[other] == final(gates)@[slot as int]);
    }
}

/// The idle bound is read off its setting, a directory goes by its key, a
/// teardown goes on by its stages, and the tail keeps what was written last.
pub proof fn law_children_are_bounded_and_torn_down(
    value: Option<&str>,
    timeout: Option<u64>,
    cwd: &str,
    key: String,
    stage: DisposeStage,
    outcome: DisposeOutcome,
    next: DisposeStage,
    tail: &mut Vec<u8>,
    chunk: &[u8],
    cap: usize,
)
    requires
        call_ensures(zcode_idle_timeout_from_value, (value,), timeout),
        call_ensures(workspace_session_key, (cwd,), key),
        call_ensures(DisposeStage::next, (stage, outcome), next),
        call_ensures(push_stderr_tail, (tail, chunk, cap), ()),
    ensures
        timeout == idle_timeout(value.deep_view()),
        key@ == session_key(cwd@),
        next == dispose_after(stage, outcome),
        final(tail)@ == last_bytes(old(tail)@ + chunk@, cap as nat),
{
}

} // verus!
