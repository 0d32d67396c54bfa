//! The record that binds a thread to the session behind its warm bridge.
//!
//! Records live in one file per thread, so that concurrent sessions never
//! clobber each other, and are replaced by writing a staging file and renaming
//! it, so that a crash cannot leave half a record.

use crate::text;
use vstd::prelude::*;

verus! {

broadcast use vstd::string::group_string_axioms;

/// One thread's session.
#[derive(Clone, Debug, PartialEq)]
pub struct ZcodeWarmRecord {
    pub zcode_session_id: String,
    pub workspace_path: String,
    /// Last `session/event` sequence number this thread observed.
    pub last_event_seq: u64,
    /// The protocol version the core reported at the last handshake.
    pub protocol_version: Option<u32>,
}

/// What a record says.
pub struct RecordModel {
    pub zcode_session_id: Seq<char>,
    pub workspace_path: Seq<char>,
    pub last_event_seq: u64,
    pub protocol_version: Option<u32>,
}

impl DeepView for ZcodeWarmRecord {
    type V = RecordModel;

    open spec fn deep_view(&self) -> RecordModel {
        RecordModel {
            zcode_session_id: self.zcode_session_id@,
            workspace_path: self.workspace_path@,
            last_event_seq: self.last_event_seq,
            protocol_version: self.protocol_version,
        }
    }
}

/// The warning for a record that replaces another: the protocol version moved
/// from one known value to a different one.
pub open spec fn drift_message(previous: RecordModel, next: RecordModel) -> Option<Seq<char>> {
    match (previous.protocol_version, next.protocol_version) {
        (Some(old_version), Some(new_version)) => if old_version == new_version {
            None
        } else {
            Some(
                "ZCode Protocol version drift: zcode.cjs moved from v"@ + text::decimal_text(
                    old_version as nat,
                ) + " to v"@ + text::decimal_text(new_version as nat) + " for session "@
                    + next.zcode_session_id + "; re-verify the warm bridge"@,
            )
        },
        _ => None,
    }
}

/// The drift warning for replacing `previous` by `next`, or `None` when the
/// recorded protocol version did not change.
pub fn protocol_drift_message(previous: &ZcodeWarmRecord, next: &ZcodeWarmRecord) -> (message:
    Option<String>)
    ensures
        message.deep_view() == drift_message(previous.deep_view(), next.deep_view()),
{
    match (previous.protocol_version, next.protocol_version) {
        (Some(old_version), Some(new_version)) => if old_version == new_version {
            None
        } else {
            Some(
                "ZCode Protocol version drift: zcode.cjs moved from v".to_owned().concat(
                    text::decimal(old_version as u64).as_str(),
                ).concat(" to v").concat(text::decimal(new_version as u64).as_str()).concat(
                    " for session ",
                ).concat(next.zcode_session_id.as_str()).concat("; re-verify the warm bridge"),
            )
        },
        _ => None,
    }
}

/// The directory, under the home directory, that holds the records.
pub fn record_dir_name() -> (name: &'static str)
    ensures
        name@ == "zcode-warm"@,
{
    "zcode-warm"
}

/// The name of a thread's record file.
pub open spec fn record_name(thread_id: Seq<char>) -> Seq<char> {
    thread_id + ".json"@
}

/// The name of the staging file of a thread's record.
pub open spec fn staging_name(thread_id: Seq<char>) -> Seq<char> {
    thread_id + ".json.tmp"@
}

/// The name of a thread's record file.
pub fn record_file_name(thread_id: &str) -> (name: String)
    ensures
        name@ == record_name(thread_id@),
{
    thread_id.to_owned().concat(".json")
}

/// The name of the staging file of a thread's record.
pub fn staging_file_name(thread_id: &str) -> (name: String)
    ensures
        name@ == staging_name(thread_id@),
{
    thread_id.to_owned().concat(".json.tmp")
}

/// One step of replacing a record. Each step is done only when the one before
/// it succeeded.
#[derive(Clone, Copy, Debug, PartialEq, Eq, Structural)]
pub enum StoreStep {
    CreateDirectory,
    WriteStaging,
    RenameStaging,
}

/// The step after one that succeeded.
pub open spec fn step_after(step: StoreStep) -> Option<StoreStep> {
    match step {
        StoreStep::CreateDirectory => Some(StoreStep::WriteStaging),
        StoreStep::WriteStaging => Some(StoreStep::RenameStaging),
        StoreStep::RenameStaging => None,
    }
}

impl StoreStep {
    /// The step that follows this one, by whether this one succeeded: a
    /// failure ends the attempt.
    pub fn next(self, succeeded: bool) -> (next: Option<StoreStep>)
        ensures
            next == (if succeeded {
                step_after(self)
            } else {
                None
            }),
    {
        if !succeeded {
            return None;
        }
        match self {
            StoreStep::CreateDirectory => Some(StoreStep::WriteStaging),
            StoreStep::WriteStaging => Some(StoreStep::RenameStaging),
            StoreStep::RenameStaging => None,
        }
    }
}

proof fn lemma_suffix(name: Seq<char>, suffix: Seq<char>)
    ensures
        (name + suffix).subrange(
            (name + suffix).len() - suffix.len(),
            (name + suffix).len() as int,
        ) == suffix,
        (name + suffix).subrange(0, (name + suffix).len() - suffix.len()) == name,
{
    assert((name + suffix).subrange(
        (name + suffix).len() - suffix.len(),
        (name + suffix).len() as int,
    ) =~= suffix);
    assert((name + suffix).subrange(0, (name + suffix).len() - suffix.len()) =~= name);
}

/// Two threads share a record file only if they are the same thread, and the
/// same holds of their staging files.
pub proof fn law_threads_do_not_share_files(first: Seq<char>, second: Seq<char>)
    ensures
        record_name(first) == record_name(second) ==> first == second,
        staging_name(first) == staging_name(second) ==> first == second,
{
    lemma_suffix(first, ".json"@);
    lemma_suffix(second, ".json"@);
    lemma_suffix(first, ".json.tmp"@);
    lemma_suffix(second, ".json.tmp"@);
}

/// No staging file is a record file of any thread: a crash between writing and
/// renaming leaves every record as it was.
pub proof fn law_staging_is_never_a_record(first: Seq<char>, second: Seq<char>)
    ensures
        staging_name(first) != record_name(second),
{
    reveal_strlit(".json");
    reveal_strlit(".json.tmp");
    lemma_suffix(first, ".json.tmp"@);
    lemma_suffix(second, ".json"@);
    assert(staging_name(first).last() == 'p');
    assert(record_name(second).last() == 'n');
}

/// The record file is touched by nothing but the rename, and the rename comes
/// only after the whole staging file has been written.
pub proof fn law_rename_follows_a_written_file(step: StoreStep)
    ensures
        step_after(step) == Some(StoreStep::RenameStaging) <==> step == StoreStep::WriteStaging,
        step_after(StoreStep::RenameStaging) is None,
{
}

/// A record warns of drift exactly when its protocol version and that of the
/// one it replaces are both known and differ; the warning names both versions
/// and the new record's session.
pub proof fn law_drift_is_told_with_both_versions(previous: RecordModel, next: RecordModel)
    ensures
        ({
            let before = previous.protocol_version;
            let after = next.protocol_version;
            let drifted = before is Some && after is Some && before != after;
            &&& drift_message(previous, next) is Some <==> drifted
            &&& drifted ==> drift_message(previous, next) == Some(
                "ZCode Protocol version drift: zcode.cjs moved from v"@ + text::decimal_text(
                    before->0 as nat,
                ) + " to v"@ + text::decimal_text(after->0 as nat) + " for session "@
                    + next.zcode_session_id + "; re-verify the warm bridge"@,
            )
        }),
{
}

/// A record file is the thread's name with `.json` behind it, and its staging
/// file the same with `.tmp` behind that. A record is replaced by making the
/// directory, writing and renaming, in this order.
pub proof fn law_a_record_is_staged_beside_itself(thread_id: Seq<char>)
    ensures
        record_name(thread_id) == thread_id + seq!['.', 'j', 's', 'o', 'n'],
        staging_name(thread_id) == record_name(thread_id) + seq!['.', 't', 'm', 'p'],
        step_after(StoreStep::CreateDirectory) == Some(StoreStep::WriteStaging),
        step_after(StoreStep::WriteStaging) == Some(StoreStep::RenameStaging),
        step_after(StoreStep::RenameStaging) is None,
{
    reveal_strlit(".json");
    reveal_strlit(".json.tmp");
    assert(".json"@ =~= seq!['.', 'j', 's', 'o', 'n']);
    assert(".json.tmp"@ =~= ".json"@ + seq!['.', 't', 'm', 'p']);
    assert(staging_name(thread_id) =~= record_name(thread_id) + seq!['.', 't', 'm', 'p']);
}

/// A record is modelled by all that it holds.
pub proof fn law_records_are_modelled_by_what_they_hold(record: ZcodeWarmRecord)
    ensures
        record.deep_view().zcode_session_id == record.zcode_session_id@,
        record.deep_view().workspace_path == record.workspace_path@,
        record.deep_view().last_event_seq == record.last_event_seq,
        record.deep_view().protocol_version == record.protocol_version,
{
}

/// A step that fails ends the attempt; one that succeeds leads to the next.
pub proof fn law_a_failed_step_ends_the_attempt(
    step: StoreStep,
    succeeded: bool,
    next: Option<StoreStep>,
    directory: &'static str,
)
    requires
        call_ensures(StoreStep::next, (step, succeeded), next),
        call_ensures(record_dir_name, (), directory),
    ensures
        !succeeded ==> next is None,
        succeeded ==> next == step_after(step),
        directory@ == "zcode-warm"@,
{
}

/// A record is replaced in its own files, and with a warning where the protocol
/// drifted.
pub proof fn law_a_record_is_replaced_in_its_own_files(
    thread_id: &str,
    name: String,
    staging: String,
    previous: &ZcodeWarmRecord,
    next: &ZcodeWarmRecord,
    message: Option<String>,
)
    requires
        call_ensures(record_file_name, (thread_id,), name),
        call_ensures(staging_file_name, (thread_id,), staging),
        call_ensures(protocol_drift_message, (previous, next), message),
    ensures
        name@ == record_name(thread_id@),
        staging@ == staging_name(thread_id@),
        name@ != staging@,
        message is Some <==> previous.protocol_version is Some && next.protocol_version is Some
            && previous.protocol_version != next.protocol_version,
        message.deep_view() == drift_message(previous.deep_view(), next.deep_view()),
{
    law_staging_is_never_a_record(thread_id@, thread_id@);
}

} // verus!
