use codex_zcode::json::Json;
use codex_zcode::protocol::assistant_message;
use codex_zcode::protocol::ApiError;
use codex_zcode::protocol::BridgeToolActivityEvent;
use codex_zcode::protocol::BridgeToolActivityStatus;
use codex_zcode::protocol::ResponseEvent;
use codex_zcode::protocol::TokenUsage;
use codex_zcode::zcode_warm::app_server_arguments;
use codex_zcode::zcode_warm::token_usage_from_turn_payload;
use codex_zcode::zcode_warm::warm_bridge_enabled_from_value;
use codex_zcode::zcode_warm::warm_mode_from_value;
use codex_zcode::zcode_warm::zcode_completed_turn_error;
use codex_zcode::zcode_warm::zcode_failure_message;
use codex_zcode::zcode_warm::CollectorAction;
use codex_zcode::zcode_warm::CollectorInput;
use codex_zcode::zcode_warm::TurnCollector;
use codex_zcode::zcode_warm::WarmMode;
use codex_zcode::zcode_warm_resume::Handshake;
use codex_zcode::zcode_warm_resume::HandshakeStep;
use codex_zcode::zcode_warm_resume::SessionSeed;
use codex_zcode::zcode_warm_state::LineEffect;
use codex_zcode::zcode_warm_state::WarmState;

fn json(text: &str) -> Json {
    Json::read(text).expect("fixture parses")
}

fn collect(events: &[&str]) -> (Vec<CollectorAction>, bool) {
    let mut collector = TurnCollector::new("sess_fake", "zcode_warm_1");
    let mut actions = Vec::new();
    for event in events {
        assert!(!collector.is_ended(), "input after the end: {event}");
        actions.extend(collector.step(CollectorInput::Notification(json(event))));
    }
    (actions, collector.is_ended())
}

fn delta(text: &str) -> String {
    format!(
        r#"{{"sessionId":"sess_fake","type":"model.streaming","payload":{{"kind":"text_delta","delta":"{text}"}}}}"#
    )
}

fn completed(response: &str, result_type: &str) -> String {
    format!(
        r#"{{"sessionId":"sess_fake","type":"turn.completed","payload":{{"response":"{response}","usage":{{"inputTokens":10,"outputTokens":2,"totalTokens":12,"cacheReadTokens":5,"reasoningTokens":1}},"resultType":"{result_type}"}}}}"#
    )
}

#[test]
fn warm_bridge_flag_parsing() {
    assert!(!warm_bridge_enabled_from_value(None));
    assert!(!warm_bridge_enabled_from_value(Some("0")));
    assert!(!warm_bridge_enabled_from_value(Some("off")));
    assert!(!warm_bridge_enabled_from_value(Some("garbage")));
    assert!(warm_bridge_enabled_from_value(Some("1")));
    assert!(warm_bridge_enabled_from_value(Some("true")));
    assert!(warm_bridge_enabled_from_value(Some(" yes ")));
}

#[test]
fn warm_mode_value_parsing() {
    assert_eq!(warm_mode_from_value(None), WarmMode::Yolo);
    assert_eq!(warm_mode_from_value(Some("yolo")), WarmMode::Yolo);
    assert_eq!(warm_mode_from_value(Some("garbage")), WarmMode::Yolo);
    assert_eq!(warm_mode_from_value(Some("build")), WarmMode::Build);
    assert_eq!(warm_mode_from_value(Some(" build ")), WarmMode::Build);
}

#[test]
fn mode_names_go_on_the_wire() {
    assert_eq!(WarmMode::Yolo.wire_session_mode(), "yolo");
    assert_eq!(WarmMode::Build.wire_session_mode(), "build");
}

#[test]
fn app_server_is_launched_in_its_workspace() {
    assert_eq!(
        app_server_arguments("/opt/zcode.cjs", "/repo"),
        vec!["/opt/zcode.cjs", "app-server", "--stdio", "--cwd", "/repo"]
    );
}

#[test]
fn turn_completed_result_types_classify() {
    assert!(zcode_completed_turn_error("success").is_none());
    for result_type in [
        "cancelled",
        "error_max_turns",
        "error_max_budget",
        "error_max_tool_calls",
    ] {
        assert!(
            matches!(
                zcode_completed_turn_error(result_type),
                Some(ApiError::InvalidRequest { .. })
            ),
            "{result_type} must surface as a non-retryable error"
        );
    }
    for result_type in ["error_during_execution", "something_new"] {
        assert!(
            matches!(
                zcode_completed_turn_error(result_type),
                Some(ApiError::Stream(_))
            ),
            "{result_type} must surface as a retryable stream error"
        );
    }
}

#[test]
fn turn_errors_say_what_happened() {
    let invalid = |message: &str| {
        Some(ApiError::InvalidRequest {
            message: message.to_string(),
        })
    };
    let stream = |message: &str| Some(ApiError::Stream(message.to_string()));
    assert_eq!(
        zcode_completed_turn_error("cancelled"),
        invalid("ZCode warm turn was cancelled")
    );
    assert_eq!(
        zcode_completed_turn_error("error_max_turns"),
        invalid("ZCode warm turn stopped: max turns exhausted")
    );
    assert_eq!(
        zcode_completed_turn_error("error_max_budget"),
        invalid("ZCode warm turn stopped: turn budget exhausted")
    );
    assert_eq!(
        zcode_completed_turn_error("error_max_tool_calls"),
        invalid("ZCode warm turn stopped: max tool calls exhausted")
    );
    assert_eq!(
        zcode_completed_turn_error("error_during_execution"),
        stream("ZCode warm turn failed during execution")
    );
    assert_eq!(
        zcode_completed_turn_error("something_new"),
        stream("ZCode warm turn ended with unknown resultType something_new")
    );
}

#[test]
fn zcode_failure_message_extracts_model_error_with_code() {
    let payload = Json::object().with(
        "error",
        Json::object()
            .with("type", Json::text("model_error"))
            .with("code", Json::text("model_output_limit_exceeded"))
            .with(
                "message",
                Json::text("The model's response exceeded the output token maximum."),
            ),
    );
    assert_eq!(
        zcode_failure_message(&payload),
        Some(
            "The model's response exceeded the output token maximum. \
             (model_output_limit_exceeded)"
                .to_string()
        )
    );
}

#[test]
fn zcode_failure_message_supports_last_error_shape() {
    let payload = json(r#"{ "lastError": { "message": "provider unavailable" } }"#);
    assert_eq!(
        zcode_failure_message(&payload),
        Some("provider unavailable".to_string())
    );
}

#[test]
fn zcode_failure_message_without_message_is_none() {
    assert_eq!(
        zcode_failure_message(&json(r#"{ "error": { "code": "boom" } }"#)),
        None
    );
    assert_eq!(zcode_failure_message(&json("{}")), None);
}

#[test]
fn zcode_failure_message_skips_duplicate_code_suffix() {
    assert_eq!(
        zcode_failure_message(&json(
            r#"{ "error": { "code": "rate_limited", "message": "request failed: rate_limited by provider" } }"#
        )),
        Some("request failed: rate_limited by provider".to_string())
    );
}

#[test]
fn warm_turn_streams_deltas_and_completes_with_usage() {
    // The core numbers its events from 8 on: the subscription pinned head 7.
    let mut state: WarmState<()> = WarmState::new(WarmMode::Yolo);
    let mut handshake = Handshake::new(&SessionSeed::Fresh, "/tmp", WarmMode::Yolo);
    handshake.step(Ok(json(r#"{"session":{"sessionId":"sess_fake"}}"#)));
    match handshake.step(Ok(json(r#"{"eventSeq":7,"events":[]}"#))) {
        HandshakeStep::Done { event_seq, .. } => {
            state.observe_event_seq(event_seq.expect("the head is pinned"))
        }
        other => panic!("expected the end, got {other:?}"),
    }
    assert_eq!(state.last_event_seq(), 7);
    let mut published = Vec::new();
    for (seq, event) in [
        (8, delta("fi")),
        (9, delta("rst")),
        (10, completed("first!", "success")),
    ] {
        let line = Json::object()
            .with("method", Json::text("session/event"))
            .with("params", json(&event).with("seq", Json::PosInt(seq)))
            .render();
        match state.handle_line(&line) {
            LineEffect::Publish(event) => published.push(event.render()),
            other => panic!("expected an event, got {other:?}"),
        }
    }
    assert_eq!(state.last_event_seq(), 10);
    let published: Vec<&str> = published.iter().map(String::as_str).collect();
    let (actions, ended) = collect(&published);
    assert!(ended);
    assert_eq!(
        actions,
        vec![
            CollectorAction::EmitOrStop(ResponseEvent::OutputItemAdded(assistant_message(
                String::new()
            ))),
            CollectorAction::EmitOrStop(ResponseEvent::OutputTextDelta("fi".to_string())),
            CollectorAction::EmitOrStop(ResponseEvent::OutputTextDelta("rst".to_string())),
            CollectorAction::EmitOrEnd(ResponseEvent::OutputItemDone(assistant_message(
                "first".to_string()
            ))),
            CollectorAction::Emit(ResponseEvent::Completed {
                response_id: "zcode_warm_1".to_string(),
                token_usage: Some(TokenUsage {
                    input_tokens: 10,
                    cached_input_tokens: 5,
                    cache_write_input_tokens: 0,
                    output_tokens: 2,
                    reasoning_output_tokens: 1,
                    total_tokens: 12,
                }),
                end_turn: Some(true),
            }),
        ]
    );
}

#[test]
fn warm_turn_maps_tool_call_events_to_bridge_activity() {
    let (actions, ended) = collect(&[
        r#"{"sessionId":"sess_fake","type":"tool_call_scheduled","payload":{"toolCallId":"tc_1","toolName":"Bash","input":{"command":"ls /tmp"}}}"#,
        r#"{"sessionId":"sess_fake","type":"tool_call_scheduled","payload":{"toolCallId":"tc_2","toolName":"Read","input":{"file":"/x"}}}"#,
        r#"{"sessionId":"sess_fake","type":"tool_call_result","payload":{"toolCallId":"tc_1","result":{"success":true,"content":"out"},"duration":3}}"#,
        r#"{"sessionId":"sess_fake","type":"tool_call_error","payload":{"toolCallId":"tc_2","error":{"type":"ToolError","message":"boom"}}}"#,
        &delta("to"),
        &delta("olturn"),
        &completed("toolturn!", "success"),
    ]);
    assert!(ended);
    let activity = |call_id: &str, tool: &str, status, detail: &str| {
        CollectorAction::EmitOrStop(ResponseEvent::BridgeToolActivity(BridgeToolActivityEvent {
            call_id: call_id.to_string(),
            tool: tool.to_string(),
            status,
            detail: Some(detail.to_string()),
        }))
    };
    assert_eq!(
        actions[..4],
        [
            activity(
                "tc_1",
                "Bash",
                BridgeToolActivityStatus::Started,
                r#"{"command":"ls /tmp"}"#
            ),
            activity(
                "tc_2",
                "Read",
                BridgeToolActivityStatus::Started,
                r#"{"file":"/x"}"#
            ),
            activity("tc_1", "Bash", BridgeToolActivityStatus::Completed, "out"),
            activity("tc_2", "Read", BridgeToolActivityStatus::Failed, "boom"),
        ]
    );
    // The turn still streams and completes after the tool activity.
    assert_eq!(
        actions[4..8],
        [
            CollectorAction::EmitOrStop(ResponseEvent::OutputItemAdded(assistant_message(
                String::new()
            ))),
            CollectorAction::EmitOrStop(ResponseEvent::OutputTextDelta("to".to_string())),
            CollectorAction::EmitOrStop(ResponseEvent::OutputTextDelta("olturn".to_string())),
            CollectorAction::EmitOrEnd(ResponseEvent::OutputItemDone(assistant_message(
                "toolturn".to_string()
            ))),
        ]
    );
    assert!(matches!(
        actions[8..],
        [CollectorAction::Emit(ResponseEvent::Completed { .. })]
    ));
}

#[test]
fn warm_turn_without_deltas_uses_final_response() {
    let (actions, ended) = collect(&[&completed("nodelta please!", "success")]);
    assert!(ended);
    assert_eq!(
        actions[0],
        CollectorAction::EmitOrEnd(ResponseEvent::OutputItemDone(assistant_message(
            "nodelta please!".to_string()
        )))
    );
    assert_eq!(actions.len(), 2);
}

#[test]
fn warm_turn_reports_budget_exhaustion_instead_of_success() {
    let (actions, ended) = collect(&[&completed("nodelta!", "error_max_turns")]);
    assert!(ended);
    assert_eq!(
        actions,
        vec![
            CollectorAction::EmitOrEnd(ResponseEvent::OutputItemDone(assistant_message(
                "nodelta!".to_string()
            ))),
            CollectorAction::Fail(ApiError::InvalidRequest {
                message: "ZCode warm turn stopped: max turns exhausted".to_string()
            }),
        ]
    );
}

#[test]
fn turn_without_any_text_only_completes() {
    let (actions, ended) = collect(&[r#"{"sessionId":"sess_fake","type":"turn.completed"}"#]);
    assert!(ended);
    assert_eq!(
        actions,
        vec![CollectorAction::Emit(ResponseEvent::Completed {
            response_id: "zcode_warm_1".to_string(),
            token_usage: Some(TokenUsage::default()),
            end_turn: Some(true),
        })]
    );
}

#[test]
fn failed_turns_quote_the_message_or_the_whole_payload() {
    let (actions, ended) = collect(&[
        r#"{"sessionId":"sess_fake","type":"turn.failed","payload":{"error":{"message":"provider down"}}}"#,
    ]);
    assert!(ended);
    assert_eq!(
        actions,
        vec![CollectorAction::Fail(ApiError::Stream(
            "provider down".to_string()
        ))]
    );
    let (actions, _) =
        collect(&[r#"{"sessionId":"sess_fake","type":"turn.failed","payload":{"why":1}}"#]);
    assert_eq!(
        actions,
        vec![CollectorAction::Fail(ApiError::Stream(
            r#"{"why":1}"#.to_string()
        ))]
    );
    let (actions, _) = collect(&[r#"{"sessionId":"sess_fake","type":"turn.failed"}"#]);
    assert_eq!(
        actions,
        vec![CollectorAction::Fail(ApiError::Stream("null".to_string()))]
    );
}

#[test]
fn other_sessions_and_other_events_are_ignored() {
    let (actions, ended) = collect(&[
        r#"{"sessionId":"sess_other","type":"turn.completed","payload":{"response":"x"}}"#,
        r#"{"type":"turn.completed","payload":{"response":"x"}}"#,
        r#"{"sessionId":"sess_fake","type":"session.updated","payload":{}}"#,
        r#"{"sessionId":"sess_fake"}"#,
        r#"{"sessionId":"sess_fake","type":"model.streaming","payload":{"kind":"reasoning_delta","delta":"x"}}"#,
        r#"{"sessionId":"sess_fake","type":"model.streaming","payload":{"kind":"text_delta","delta":""}}"#,
        r#"{"sessionId":"sess_fake","type":"model.streaming"}"#,
    ]);
    assert!(!ended);
    assert_eq!(actions, Vec::new());
}

#[test]
fn a_silent_or_closed_stream_ends_the_turn() {
    let mut collector = TurnCollector::new("s", "r");
    assert_eq!(collector.step(CollectorInput::Lagged), Vec::new());
    assert!(!collector.is_ended());
    assert_eq!(
        collector.step(CollectorInput::Elapsed),
        vec![
            CollectorAction::Kill("turn events stalled".to_string()),
            CollectorAction::Fail(ApiError::Stream(
                "ZCode warm turn stalled: no session events before the idle window elapsed"
                    .to_string()
            )),
        ]
    );
    assert!(collector.is_ended());
    let mut collector = TurnCollector::new("s", "r");
    assert_eq!(
        collector.step(CollectorInput::Closed),
        vec![CollectorAction::Fail(ApiError::Stream(
            "ZCode warm app-server event stream closed".to_string()
        ))]
    );
    assert!(collector.is_ended());
}

#[test]
fn unreadable_counts_are_zero() {
    let usage = token_usage_from_turn_payload(&json(
        r#"{"usage":{"inputTokens":"3","cacheWriteTokens":4,"totalTokens":-1,"outputTokens":1.5}}"#,
    ));
    assert_eq!(
        usage,
        TokenUsage {
            cache_write_input_tokens: 4,
            total_tokens: -1,
            ..TokenUsage::default()
        }
    );
}
