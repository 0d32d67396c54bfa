use std::time::Duration;

use codex_zcode::zcode_process::event_timeout_from_value;
use codex_zcode::zcode_process::push_stderr_tail;
use codex_zcode::zcode_process::stream_line;
use codex_zcode::zcode_process::workspace_session_key;
use codex_zcode::zcode_process::zcode_idle_timeout_from_value;
use codex_zcode::zcode_process::DisposeOutcome;
use codex_zcode::zcode_process::DisposeStage;
use codex_zcode::zcode_process::StreamRead;
use codex_zcode::zcode_process::WorkspaceSessionGates;
use codex_zcode::zcode_process::ZcodeStreamLine;
use codex_zcode::zcode_process::DEFAULT_ZCODE_STREAM_IDLE_TIMEOUT;

fn timeout(value: Option<&str>) -> Option<Duration> {
    zcode_idle_timeout_from_value(value).map(Duration::from_secs)
}

const DEFAULT: Duration = Duration::from_secs(DEFAULT_ZCODE_STREAM_IDLE_TIMEOUT);

#[test]
fn idle_timeout_defaults_when_env_is_unset() {
    assert_eq!(timeout(None), Some(DEFAULT));
    assert_eq!(DEFAULT, Duration::from_secs(15 * 60));
}

#[test]
fn idle_timeout_zero_disables_the_bound() {
    assert_eq!(timeout(Some("0")), None);
}

#[test]
fn idle_timeout_parses_seconds_and_falls_back_on_junk() {
    assert_eq!(timeout(Some("45")), Some(Duration::from_secs(45)));
    assert_eq!(timeout(Some(" 120 ")), Some(Duration::from_secs(120)));
    assert_eq!(timeout(Some("not-a-number")), Some(DEFAULT));
}

#[test]
fn collectors_always_have_a_bound() {
    assert_eq!(event_timeout_from_value(Some("0")), 900);
    assert_eq!(event_timeout_from_value(Some("-5")), 900);
    assert_eq!(event_timeout_from_value(Some("7")), 7);
    assert_eq!(event_timeout_from_value(None), 900);
}

#[test]
fn trailing_slashes_and_white_space_do_not_make_a_directory() {
    assert_eq!(workspace_session_key("/repo"), "/repo");
    assert_eq!(workspace_session_key(" /repo// \n"), "/repo");
    assert_eq!(workspace_session_key("/"), "/");
    assert_eq!(workspace_session_key("//"), "/");
    assert_eq!(workspace_session_key(" /// "), "/");
    assert_eq!(workspace_session_key(""), "");
    assert_eq!(workspace_session_key("\u{e9}/"), "\u{e9}");
}

#[test]
fn each_directory_has_its_own_slot() {
    let mut gates = WorkspaceSessionGates::new();
    let repo = gates.slot("/repo");
    let other = gates.slot("/other/");
    assert_ne!(repo, other);
    assert_eq!(gates.slot("/repo/"), repo);
    assert_eq!(gates.slot("/other"), other);
    let root = gates.slot("/");
    assert_eq!(gates.slot("//"), root);
    assert_ne!(gates.slot(""), root);
}

#[test]
fn reads_map_to_lines() {
    assert_eq!(
        stream_line(StreamRead::Line("hello".to_string())),
        ZcodeStreamLine::Line("hello".to_string())
    );
    assert_eq!(stream_line(StreamRead::Closed), ZcodeStreamLine::Eof);
    assert_eq!(stream_line(StreamRead::Failed), ZcodeStreamLine::Eof);
    assert_eq!(
        stream_line(StreamRead::Elapsed(100)),
        ZcodeStreamLine::Stalled(100)
    );
}

#[test]
fn teardown_escalates_only_when_the_grace_period_elapses() {
    let stage = DisposeStage::Terminate.next(DisposeOutcome::Failed);
    assert_eq!(stage, DisposeStage::Grace);
    assert_eq!(stage.next(DisposeOutcome::Done), DisposeStage::Over);
    assert_eq!(stage.next(DisposeOutcome::Failed), DisposeStage::Over);
    let stage = stage.next(DisposeOutcome::Elapsed);
    assert_eq!(stage, DisposeStage::ForceKill);
    assert_eq!(stage.next(DisposeOutcome::Failed), DisposeStage::Over);
    let stage = stage.next(DisposeOutcome::Done);
    assert_eq!(stage, DisposeStage::Reap);
    assert_eq!(stage.next(DisposeOutcome::Done), DisposeStage::Over);
}

#[test]
fn stderr_tail_keeps_the_end() {
    let mut tail = b"abc".to_vec();
    push_stderr_tail(&mut tail, b"de", 8);
    assert_eq!(tail, b"abcde");
    push_stderr_tail(&mut tail, b"fghij", 8);
    assert_eq!(tail, b"cdefghij");
    push_stderr_tail(&mut tail, b"", 3);
    assert_eq!(tail, b"hij");
    push_stderr_tail(&mut tail, b"x", 0);
    assert_eq!(tail, b"");
}
