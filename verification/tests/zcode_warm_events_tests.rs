use codex_zcode::json::Json;
use codex_zcode::protocol::BridgeToolActivityEvent;
use codex_zcode::protocol::BridgeToolActivityStatus;
use codex_zcode::zcode_warm_events::bridge_tool_activity_from_notification;
use codex_zcode::zcode_warm_events::input_detail;
use codex_zcode::zcode_warm_events::ToolNames;

fn scheduled_notification(tool_call_id: &str, tool_name: &str, input: Json) -> String {
    let input = input.render();
    format!(
        r#"{{"type":"tool_call_scheduled","payload":{{"toolCallId":"{tool_call_id}","toolName":"{tool_name}","input":{input}}}}}"#
    )
}

fn parse(notification: &str) -> Json {
    Json::read(notification).expect("notification fixture parses")
}

fn activity(notification: &str, tool_names: &mut ToolNames) -> BridgeToolActivityEvent {
    bridge_tool_activity_from_notification(&parse(notification), tool_names)
        .expect("tool notification maps to bridge activity")
}

#[test]
fn scheduled_maps_to_started_with_input_detail() {
    let mut tool_names = ToolNames::new();
    assert_eq!(
        activity(
            &scheduled_notification(
                "tc_1",
                "Bash",
                Json::object().with("command", Json::text("ls /tmp"))
            ),
            &mut tool_names,
        ),
        BridgeToolActivityEvent {
            call_id: "tc_1".to_string(),
            tool: "Bash".to_string(),
            status: BridgeToolActivityStatus::Started,
            detail: Some(r#"{"command":"ls /tmp"}"#.to_string()),
        },
    );
    assert_eq!(
        tool_names.get("tc_1"),
        Some("Bash"),
        "later events need the scheduled name when they omit toolName",
    );
}

#[test]
fn oversized_input_detail_is_capped() {
    let long_command = "x".repeat(500);
    let mut tool_names = ToolNames::new();
    let mapped = activity(
        &scheduled_notification(
            "tc_1",
            "Bash",
            Json::object().with("command", Json::text(&long_command)),
        ),
        &mut tool_names,
    );
    let detail = mapped.detail.expect("input detail is present");
    assert_eq!(detail.chars().count(), 200);
}

#[test]
fn successful_result_falls_back_to_scheduled_tool_name() {
    let mut tool_names = ToolNames::new();
    activity(
        &scheduled_notification(
            "tc_1",
            "Bash",
            Json::object().with("command", Json::text("ls")),
        ),
        &mut tool_names,
    );
    assert_eq!(
        activity(
            r#"{"type":"tool_call_result","payload":{"toolCallId":"tc_1","result":{"success":true,"content":"file-a\nfile-b\n"},"duration":12}}"#,
            &mut tool_names,
        ),
        BridgeToolActivityEvent {
            call_id: "tc_1".to_string(),
            tool: "Bash".to_string(),
            status: BridgeToolActivityStatus::Completed,
            detail: Some("file-a\nfile-b\n".to_string()),
        },
    );
}

#[test]
fn failed_result_maps_to_failed_status() {
    let mut tool_names = ToolNames::new();
    assert_eq!(
        activity(
            r#"{"type":"tool_call_result","payload":{"toolCallId":"tc_1","toolName":"Edit","result":{"success":false,"content":"","error":{"type":"ToolError","message":"patch did not apply"}}}}"#,
            &mut tool_names,
        ),
        BridgeToolActivityEvent {
            call_id: "tc_1".to_string(),
            tool: "Edit".to_string(),
            status: BridgeToolActivityStatus::Failed,
            detail: Some("patch did not apply".to_string()),
        },
    );
}

#[test]
fn tool_error_maps_to_failed_status() {
    let mut tool_names = ToolNames::new();
    assert_eq!(
        activity(
            r#"{"type":"tool_call_error","payload":{"toolCallId":"tc_1","error":{"type":"ToolError","message":"nope"}}}"#,
            &mut tool_names,
        ),
        BridgeToolActivityEvent {
            call_id: "tc_1".to_string(),
            tool: "unknown".to_string(),
            status: BridgeToolActivityStatus::Failed,
            detail: Some("nope".to_string()),
        },
    );
}

#[test]
fn result_without_scheduled_or_name_reports_unknown_tool() {
    let mut tool_names = ToolNames::new();
    assert_eq!(
        activity(
            r#"{"type":"tool_call_result","payload":{"toolCallId":"tc_late","result":{"success":true,"content":"ok"}}}"#,
            &mut tool_names,
        )
        .tool,
        "unknown",
    );
}

#[test]
fn non_tool_notifications_do_not_map() {
    let mut tool_names = ToolNames::new();
    for notification in [
        r#"{"type":"model.streaming","payload":{"kind":"text_delta","delta":"hi"}}"#,
        r#"{"type":"turn.completed","payload":{"resultType":"success"}}"#,
        r#"{"type":"tool_call_scheduled","payload":{}}"#,
        r#"{"sessionId":"sess_fake"}"#,
    ] {
        assert!(
            bridge_tool_activity_from_notification(&parse(notification), &mut tool_names).is_none(),
            "unexpected mapping for {notification}",
        );
    }
}

#[test]
fn unmapped_notifications_still_teach_names() {
    let mut tool_names = ToolNames::new();
    let notification = r#"{"type":"tool_call_progress","payload":{"toolCallId":"tc_1","toolName":"Grep"}}"#;
    assert!(
        bridge_tool_activity_from_notification(&parse(notification), &mut tool_names).is_none()
    );
    assert_eq!(tool_names.get("tc_1"), Some("Grep"));
    tool_names.insert("tc_1", "Edit");
    assert_eq!(tool_names.get("tc_1"), Some("Edit"));
    assert_eq!(tool_names.get("tc_2"), None);
}

#[test]
fn missing_success_counts_as_completed_and_unreadable_details_are_left_out() {
    let mut tool_names = ToolNames::new();
    let mapped = activity(
        r#"{"type":"tool_call_result","payload":{"toolCallId":"a","toolName":"T","result":{"success":"no"}}}"#,
        &mut tool_names,
    );
    assert_eq!(mapped.status, BridgeToolActivityStatus::Completed);
    assert_eq!(mapped.detail, None);
    let mapped = activity(
        r#"{"type":"tool_call_scheduled","payload":{"toolCallId":"a","toolName":"T"}}"#,
        &mut tool_names,
    );
    assert_eq!(mapped.detail, None);
}

#[test]
fn input_detail_shows_a_bounded_start() {
    assert_eq!(input_detail(""), None);
    assert_eq!(input_detail("{}"), Some("{}".to_string()));
    assert_eq!(
        input_detail(&"\u{e9}".repeat(201)),
        Some("\u{e9}".repeat(200))
    );
}

#[test]
fn names_last_through_other_notifications() {
    let mut tool_names = ToolNames::new();
    let result = r#"{"type":"tool_call_result","payload":{"toolCallId":"tc_1","result":{"content":"x"}}}"#;
    assert_eq!(activity(result, &mut tool_names).tool, "unknown");
    activity(
        &scheduled_notification("tc_1", "Bash", Json::Null),
        &mut tool_names,
    );
    activity(
        &scheduled_notification("tc_2", "Read", Json::Null),
        &mut tool_names,
    );
    // Without a type nothing is taken in; with any type a name is.
    let untyped = r#"{"payload":{"toolCallId":"tc_1","toolName":"Grep"}}"#;
    assert!(bridge_tool_activity_from_notification(&parse(untyped), &mut tool_names).is_none());
    assert_eq!(activity(result, &mut tool_names).tool, "Bash");
    let typed = r#"{"type":"session.updated","payload":{"toolCallId":"tc_1","toolName":"Grep"}}"#;
    assert!(bridge_tool_activity_from_notification(&parse(typed), &mut tool_names).is_none());
    assert_eq!(activity(result, &mut tool_names).tool, "Grep");
}
