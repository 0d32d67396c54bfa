use codex_zcode::ids::new_command_id;
use codex_zcode::ids::new_request_id;
use codex_zcode::ids::request_id_from;
use codex_zcode::json::Json;
use codex_zcode::protocol::ApiError;
use codex_zcode::zcode_warm::CollectorAction;
use codex_zcode::zcode_warm::CollectorInput;
use codex_zcode::zcode_warm::TurnCollector;
use codex_zcode::zcode_warm::WarmMode;
use codex_zcode::zcode_warm_goal::GoalCollector;
use codex_zcode::zcode_warm_resume::Handshake;
use codex_zcode::zcode_warm_resume::HandshakeStep;
use codex_zcode::zcode_warm_resume::SessionSeed;
use codex_zcode::zcode_warm_state::LineEffect;
use codex_zcode::zcode_warm_state::WarmState;
use codex_zcode::zcode_warm_wire::after_first_outcome;
use codex_zcode::zcode_warm_wire::after_retry;
use codex_zcode::zcode_warm_wire::answer_callback;
use codex_zcode::zcode_warm_wire::callback_note;
use codex_zcode::zcode_warm_wire::request_outcome;
use codex_zcode::zcode_warm_wire::route_line;
use codex_zcode::zcode_warm_wire::timeout_reason;
use codex_zcode::zcode_warm_wire::unrecognized_root_keys;
use codex_zcode::zcode_warm_wire::CompatStep;
use codex_zcode::zcode_warm_wire::ProtocolRequestError;
use codex_zcode::zcode_warm_wire::RequestWait;
use codex_zcode::zcode_warm_wire::Route;

fn json(text: &str) -> Json {
    Json::read(text).expect("fixture parses")
}

fn drift_error() -> ProtocolRequestError {
    let issues = r#"[{"code":"unrecognized_keys","path":[],"keys":["titleGenerationEnabled"],"message":"Unrecognized key"}]"#;
    let error = Json::object()
        .with("code", Json::NegInt(-32602))
        .with("message", Json::text("Invalid params"))
        .with(
            "data",
            Json::object()
                .with("name", Json::text("ZodError"))
                .with("message", Json::text(issues)),
        );
    ProtocolRequestError::from_protocol_error(&error)
}

#[test]
fn compat_retry_strips_unrecognized_keys_and_retries_once() {
    let error = drift_error();
    assert_eq!(error.message, "Invalid params");
    assert_eq!(error.unrecognized_keys, vec!["titleGenerationEnabled"]);
    let params = json(r#"{"workspace":{"workspacePath":"/tmp"},"mode":"yolo","titleGenerationEnabled":false}"#);
    match after_first_outcome(&params, Err(error)) {
        CompatStep::Retry(stripped) => assert_eq!(
            stripped.render(),
            r#"{"mode":"yolo","workspace":{"workspacePath":"/tmp"}}"#
        ),
        other => panic!("expected a retry, got {other:?}"),
    }
    // A second rejection stands, even if it flags keys again.
    assert_eq!(
        after_retry(Err(drift_error())),
        Err("Invalid params".to_string())
    );
    assert_eq!(
        after_retry(Ok(json(r#"{"session":1}"#))),
        Ok(json(r#"{"session":1}"#))
    );
}

#[test]
fn compat_retry_does_not_retry_unrelated_rejections() {
    let params = json(r#"{"a":1}"#);
    let error = ProtocolRequestError::plain("session/create failed: nope".to_string());
    match after_first_outcome(&params, Err(error)) {
        CompatStep::Done(Err(message)) => assert_eq!(message, "session/create failed: nope"),
        other => panic!("expected the error, got {other:?}"),
    }
    match after_first_outcome(&params, Ok(Json::Null)) {
        CompatStep::Done(Ok(result)) => assert_eq!(result, Json::Null),
        other => panic!("expected the result, got {other:?}"),
    }
}

#[test]
fn only_root_keys_of_matching_issues_are_flagged() {
    let issues = json(
        r#"[
            {"code":"unrecognized_keys","path":["workspace"],"keys":["nested"]},
            {"code":"invalid_type","path":[],"keys":["typed"]},
            {"code":"unrecognized_keys","path":[],"keys":["a",1,"b"]},
            {"code":"unrecognized_keys","keys":["pathless"]},
            {"code":"unrecognized_keys","path":[],"keys":"c"},
            "text",
            {"code":"unrecognized_keys","path":[],"keys":["a"]}
        ]"#,
    );
    assert_eq!(unrecognized_root_keys(&issues), vec!["a", "b", "a"]);
    assert!(unrecognized_root_keys(&json("{}")).is_empty());
    let other_code = json(
        r#"{"code":-32000,"message":"m","data":{"message":"[{\"code\":\"unrecognized_keys\",\"path\":[],\"keys\":[\"a\"]}]"}}"#,
    );
    assert!(ProtocolRequestError::from_protocol_error(&other_code)
        .unrecognized_keys
        .is_empty());
    let broken = json(r#"{"code":-32602,"data":{"message":"no list"}}"#);
    let parsed = ProtocolRequestError::from_protocol_error(&broken);
    assert_eq!(parsed.message, "unknown ZCode Protocol error");
    assert!(parsed.unrecognized_keys.is_empty());
}

fn answer(mode: WarmMode, method: &str) -> String {
    answer_callback(mode, Json::text("probe-1"), method).render()
}

#[test]
fn gated_bridge_creates_build_session_and_denies_interaction_callbacks() {
    match Handshake::new(&SessionSeed::Fresh, "/tmp", WarmMode::Build).request() {
        HandshakeStep::Request { method, params } => {
            assert_eq!(method, "session/create");
            assert_eq!(params.str_at("mode"), Some("build"));
        }
        other => panic!("expected a creation, got {other:?}"),
    }
    assert_eq!(
        answer(WarmMode::Build, "interaction/requestPermission"),
        r#"{"id":"probe-1","result":{"decision":"deny","reason":"Denied by the Codex host: the warm ZCode bridge has no interactive approver"}}"#
    );
    assert_eq!(
        answer(WarmMode::Build, "interaction/requestUserInput"),
        r#"{"id":"probe-1","result":{"action":"decline","reason":"Declined by the Codex host: the warm ZCode bridge has no interactive approver"}}"#
    );
}

#[test]
fn yolo_bridge_rejects_interaction_callbacks() {
    for method in [
        "interaction/requestPermission",
        "interaction/requestUserInput",
        "something/new",
    ] {
        assert_eq!(
            answer(WarmMode::Yolo, method),
            format!(
                r#"{{"error":{{"code":-32601,"message":"unsupported host callback: {method}"}},"id":"probe-1"}}"#
            )
        );
    }
}

#[test]
fn bridge_fast_fails_runtime_header_callbacks_with_host_fallback_shapes() {
    for mode in [WarmMode::Yolo, WarmMode::Build] {
        assert_eq!(
            answer(mode, "interaction/requestProviderRuntimeHeaders"),
            r#"{"id":"probe-1","result":{"errorMessage":"Provider request auth is unavailable","headersApplied":false}}"#
        );
        assert_eq!(
            answer(mode, "interaction/requestOfficialMcpAuthHeaders"),
            r#"{"id":"probe-1","result":{"ok":false,"reason":"official_auth_unavailable"}}"#
        );
        assert_eq!(
            answer(mode, "session/requestRuntimePreferences"),
            r#"{"id":"probe-1","result":{"askUserQuestionAutoResolutionEnabled":true,"memoryEnabled":false,"nativeSearchEnhancementsEnabled":false}}"#
        );
    }
}

#[test]
fn callbacks_leave_bounded_notes() {
    let params = json(
        r#"{"toolName":"Bash","riskLevel":"medium","reason":"probe","input":{"command":"ls /tmp"}}"#,
    );
    assert_eq!(
        callback_note(WarmMode::Build, "interaction/requestPermission", &params).as_deref(),
        Some(
            "ZCode warm permission request denied: tool=Bash risk=medium reason=probe \
             input={\"command\":\"ls /tmp\"}"
        )
    );
    assert_eq!(
        callback_note(WarmMode::Build, "interaction/requestPermission", &Json::Null).as_deref(),
        Some("ZCode warm permission request denied: tool=unknown risk=unknown reason= input=")
    );
    let long = Json::object().with("prompt", Json::text(&"p".repeat(300)));
    assert_eq!(
        callback_note(WarmMode::Build, "interaction/requestUserInput", &long),
        Some(format!(
            "ZCode warm user-input request declined: prompt={}",
            "p".repeat(200)
        ))
    );
    assert_eq!(
        callback_note(WarmMode::Yolo, "interaction/requestUserInput", &long).as_deref(),
        Some(
            "ZCode warm app-server callback interaction/requestUserInput has no host handler; \
             rejecting"
        )
    );
    assert_eq!(
        callback_note(
            WarmMode::Yolo,
            "session/requestRuntimePreferences",
            &Json::Null
        ),
        None
    );
}

#[test]
fn waits_end_in_outcomes() {
    let error = request_outcome(
        "session/goal",
        RequestWait::Answered(Err(ProtocolRequestError::plain("busy".to_string()))),
    )
    .unwrap_err();
    assert_eq!(error.message, "session/goal failed: busy");
    let flagged = request_outcome("m", RequestWait::Answered(Err(drift_error()))).unwrap_err();
    assert_eq!(flagged.unrecognized_keys, vec!["titleGenerationEnabled"]);
    assert_eq!(
        request_outcome("m", RequestWait::Dropped)
            .unwrap_err()
            .message,
        "m wait aborted: reader exited"
    );
    assert_eq!(
        request_outcome("m", RequestWait::Elapsed)
            .unwrap_err()
            .message,
        "m timed out"
    );
    assert_eq!(timeout_reason("m"), "m timed out");
    assert_eq!(
        request_outcome("m", RequestWait::Answered(Ok(Json::Null))).unwrap(),
        Json::Null
    );
}

#[test]
fn requests_get_fresh_ids_and_one_answer() {
    let mut state: WarmState<&str> = WarmState::new(WarmMode::Yolo);
    let first = state
        .begin_request("session/create", json(r#"{"mode":"yolo"}"#), "create")
        .unwrap();
    assert_eq!(first.id, 1);
    assert_eq!(
        first.line,
        "{\"id\":1,\"method\":\"session/create\",\"params\":{\"mode\":\"yolo\"}}\n"
    );
    let second = state.begin_request("session/stop", Json::Null, "stop").unwrap();
    assert_eq!(second.id, 2);

    match state.handle_line(r#"{"id":1,"result":{"ok":true},"error":{"message":"ignored"}}"#) {
        LineEffect::Resolve { waiter, outcome } => {
            assert_eq!(waiter, "create");
            assert_eq!(outcome.unwrap().render(), r#"{"ok":true}"#);
        }
        other => panic!("expected an answer, got {other:?}"),
    }
    assert!(matches!(
        state.handle_line(r#"{"id":1,"result":{}}"#),
        LineEffect::Nothing
    ));
    match state.handle_line(r#"{"id":2,"error":{"code":-32000,"message":"gone"}}"#) {
        LineEffect::Resolve { waiter, outcome } => {
            assert_eq!(waiter, "stop");
            assert_eq!(outcome.unwrap_err().message, "gone");
        }
        other => panic!("expected an answer, got {other:?}"),
    }
    let third = state.begin_request("m", Json::Null, "third").unwrap();
    match state.handle_line(r#"{"id":3}"#) {
        LineEffect::Resolve { outcome, .. } => assert_eq!(
            outcome.unwrap_err().message,
            "malformed ZCode Protocol response for id 3"
        ),
        other => panic!("expected an answer, got {other:?}"),
    }
    let failed = state.abandon_request(third.id, "m", "pipe closed");
    assert_eq!(
        failed.message,
        "could not send m to ZCode warm app-server: pipe closed"
    );
}

#[test]
fn noise_and_strangers_are_ignored() {
    let mut state: WarmState<u8> = WarmState::new(WarmMode::Yolo);
    for line in [
        "not json",
        "",
        "[]",
        r#"{"id":"text"}"#,
        r#"{"id":9,"result":1}"#,
        r#"{"method":"session/other","params":{}}"#,
        r#"{"method":"session/event"}"#,
    ] {
        assert!(
            matches!(state.handle_line(line), LineEffect::Nothing),
            "{line}"
        );
    }
    match route_line(r#"{"id":7,"method":"m","params":{"a":1}}"#) {
        Route::Callback { id, method, params } => {
            assert_eq!(id, Json::PosInt(7));
            assert_eq!(method, "m");
            assert_eq!(params.render(), r#"{"a":1}"#);
        }
        other => panic!("expected a callback, got {other:?}"),
    }
}

#[test]
fn callbacks_are_answered_on_the_wire() {
    let mut state: WarmState<u8> = WarmState::new(WarmMode::Build);
    match state.handle_line(r#"{"id":"perm-1","method":"interaction/requestPermission"}"#) {
        LineEffect::Answer { line, note } => {
            assert!(line.starts_with(r#"{"id":"perm-1","result":{"decision":"deny""#));
            assert!(line.ends_with("}\n"));
            assert!(note.is_some());
        }
        other => panic!("expected an answer, got {other:?}"),
    }
}

#[test]
fn event_sequence_numbers_only_go_up() {
    let mut state: WarmState<u8> = WarmState::new(WarmMode::Yolo);
    state.observe_event_seq(7);
    for (line, expected) in [
        (r#"{"method":"session/event","params":{"seq":8}}"#, 8),
        (r#"{"method":"session/event","params":{"seq":3}}"#, 8),
        (r#"{"method":"session/event","params":{}}"#, 8),
        (r#"{"method":"session/event","params":{"seq":-4}}"#, 8),
        (r#"{"method":"session/event","params":{"seq":10}}"#, 10),
    ] {
        assert!(matches!(state.handle_line(line), LineEffect::Publish(_)));
        assert_eq!(state.last_event_seq(), expected, "{line}");
    }
}

#[test]
fn collector_fails_fast_when_the_app_server_exits_mid_turn() {
    let mut state: WarmState<u8> = WarmState::new(WarmMode::Yolo);
    state.establish("sess_fake");
    state.establish("sess_other");
    assert_eq!(state.session_id(), Some("sess_fake"));
    let waiting = state.begin_request("session/send", Json::Null, 5).unwrap();
    let teardown = state.output_closed();
    assert!(state.is_dead());
    assert_eq!(teardown.waiters.len(), 1);
    assert_eq!(teardown.waiters.get(&waiting.id), Some(&5));
    assert_eq!(
        teardown.error.message,
        "ZCode warm app-server closed its output"
    );
    let mut collector = TurnCollector::new("sess_fake", "r");
    let actions = collector.step(CollectorInput::Notification(
        teardown.event.expect("an established session is failed"),
    ));
    assert!(collector.is_ended());
    match &actions[..] {
        [CollectorAction::Fail(codex_zcode::protocol::ApiError::Stream(message))] => {
            assert!(message.contains("exited mid-turn"), "{message}")
        }
        other => panic!("expected a stream error, got {other:?}"),
    }
}

#[test]
fn killing_is_done_once_and_refuses_requests() {
    let mut state: WarmState<u8> = WarmState::new(WarmMode::Yolo);
    state.begin_request("a", Json::Null, 1).unwrap();
    state.begin_request("b", Json::Null, 2).unwrap();
    let teardown = state.kill("turn events stalled").expect("first kill");
    assert_eq!(
        teardown.waiters,
        std::collections::HashMap::from([(1, 1), (2, 2)])
    );
    assert_eq!(teardown.error.message, "turn events stalled");
    assert!(teardown.event.is_none(), "no session, nobody collects");
    assert!(state.kill("again").is_none());
    let error = state.begin_request("c", Json::Null, 3).unwrap_err();
    assert_eq!(error.message, "ZCode warm app-server is no longer running");
}

#[test]
fn failures_are_counted_until_a_success() {
    let mut state: WarmState<u8> = WarmState::new(WarmMode::Yolo);
    assert_eq!(state.consecutive_failures(), 0);
    state.register_failure();
    state.register_failure();
    assert_eq!(state.consecutive_failures(), 2);
    state.register_success();
    assert_eq!(state.consecutive_failures(), 0);
}

#[test]
fn ids_are_random_and_well_formed() {
    assert_eq!(request_id_from("u"), "zcode_warm_u");
    let first = new_request_id();
    let second = new_request_id();
    assert_ne!(first, second);
    let uuid = first.strip_prefix("zcode_warm_").expect("prefix");
    let parsed = uuid::Uuid::parse_str(uuid).expect("a uuid");
    assert_eq!(parsed.to_string(), uuid);
    assert_eq!(parsed.get_version_num(), 4);
    let command = new_command_id();
    assert_eq!(command.len(), 32);
    assert_eq!(
        uuid::Uuid::parse_str(&command).unwrap().simple().to_string(),
        command
    );
}

#[test]
fn frames_are_handled_like_lines() {
    let mut state: WarmState<&str> = WarmState::new(WarmMode::Yolo);
    assert!(state.has_free_id());
    let request = state
        .begin_request("session/list", Json::object(), "waiter")
        .expect("alive");
    assert_eq!(
        request.line,
        "{\"id\":1,\"method\":\"session/list\",\"params\":{}}\n"
    );
    match state.handle_frame(&json(r#"{"id":1,"result":[]}"#)) {
        LineEffect::Resolve { waiter, outcome } => {
            assert_eq!(waiter, "waiter");
            assert_eq!(outcome.unwrap(), Json::Array(Vec::new()));
        }
        other => panic!("expected an answer, got {other:?}"),
    }
    match state.handle_frame(&json(
        r#"{"method":"session/event","params":{"seq":4,"type":"x"}}"#,
    )) {
        LineEffect::Publish(event) => assert_eq!(event.str_at("type"), Some("x")),
        other => panic!("expected an event, got {other:?}"),
    }
    assert_eq!(state.last_event_seq(), 4);
}

#[test]
fn an_established_session_stays() {
    let mut state: WarmState<()> = WarmState::new(WarmMode::Yolo);
    assert_eq!(state.session_id(), None);
    state.establish("sess_fake");
    state.establish("sess_other");
    assert_eq!(state.session_id(), Some("sess_fake"));
}

#[test]
fn a_goal_loop_fails_fast_when_the_bridge_dies() {
    let mut state: WarmState<()> = WarmState::new(WarmMode::Yolo);
    state.establish("sess_fake");
    let mut goal = GoalCollector::new("sess_fake", "req");
    let event = state.output_closed().event.expect("a session is established");
    assert_eq!(
        goal.step(CollectorInput::Notification(event)),
        vec![CollectorAction::Fail(ApiError::Stream(
            "ZCode warm app-server exited mid-turn; the turn will be retried in the same session"
                .to_string()
        ))]
    );
    assert!(goal.is_ended());
}
