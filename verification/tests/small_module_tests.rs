use codex_zcode::bedrock_regions::is_supported_amazon_bedrock_region;
use codex_zcode::bridge_tool_activity::status_for_activity;
use codex_zcode::bridge_tool_activity::StatusDetailsCapitalization;
use codex_zcode::message_tool::after_delivery;
use codex_zcode::message_tool::message_content;
use codex_zcode::message_tool::unknown_agent_error;
use codex_zcode::message_tool::DeliveryOutcome;
use codex_zcode::message_tool::DeliveryStep;
use codex_zcode::message_tool::FunctionCallError;
use codex_zcode::prompt_request::extract_prompt_request_with_offset;
use codex_zcode::protocol::BridgeToolActivityStatus;

#[test]
fn extract_prompt_request_returns_text_after_last_delimiter() {
    let message =
        "# Context\n## My request for Codex:\nFirst\n## My request for Codex:\n  Second\n";

    assert_eq!(
        extract_prompt_request_with_offset(message),
        ("Second", message.find("Second").expect("request offset"))
    );
}

#[test]
fn extract_prompt_request_passthrough_without_delimiter() {
    assert_eq!(
        extract_prompt_request_with_offset("Just a question"),
        ("Just a question", 0)
    );
}

#[test]
fn offsets_are_in_bytes() {
    let message = "\u{e9}\u{4e2d} ## My request for Codex:\u{3000}d\u{e9}j\u{e0} vu \n";
    let (request, offset) = extract_prompt_request_with_offset(message);
    assert_eq!(request, "d\u{e9}j\u{e0} vu");
    assert_eq!(&message[offset..offset + request.len()], request);
    let empty = "x## My request for Codex: \n";
    assert_eq!(
        extract_prompt_request_with_offset(empty),
        ("", empty.len())
    );
}

#[test]
fn bedrock_regions_are_the_listed_ones() {
    for region in [
        "us-east-2",
        "us-east-1",
        "us-west-2",
        "ap-southeast-3",
        "ap-south-1",
        "ap-northeast-1",
        "eu-central-1",
        "eu-west-1",
        "eu-west-2",
        "eu-south-1",
        "eu-north-1",
        "sa-east-1",
    ] {
        assert!(is_supported_amazon_bedrock_region(region), "{region}");
    }
    for region in ["", "us-west-1", "US-EAST-1", "us-east-1 ", "eu-west-3"] {
        assert!(!is_supported_amazon_bedrock_region(region), "{region}");
    }
}

#[test]
fn bridge_tool_activity_drives_the_status_indicator() {
    let update = status_for_activity(
        BridgeToolActivityStatus::Started,
        "Bash",
        Some("ls /tmp".to_string()),
    );
    assert_eq!(update.header, "Running Bash");
    assert_eq!(update.details.as_deref(), Some("ls /tmp"));
    assert_eq!(
        update.capitalization,
        StatusDetailsCapitalization::Preserve
    );
    for status in [
        BridgeToolActivityStatus::Completed,
        BridgeToolActivityStatus::Failed,
    ] {
        let update = status_for_activity(status, "Bash", Some("file-a".to_string()));
        assert_eq!(update.header, "Working");
        assert_eq!(update.details, None);
        assert_eq!(
            update.capitalization,
            StatusDetailsCapitalization::CapitalizeFirst
        );
    }
}

#[test]
fn empty_messages_are_not_sent() {
    assert_eq!(
        message_content(" \n".to_string()),
        Err(FunctionCallError::RespondToModel(
            "Empty message can't be sent to an agent".to_string()
        ))
    );
    assert_eq!(message_content(" hi ".to_string()), Ok(" hi ".to_string()));
}

#[test]
fn failed_deliveries_name_the_agents_that_exist() {
    assert!(matches!(
        after_delivery(DeliveryOutcome::ThreadNotFound),
        DeliveryStep::ListAgents
    ));
    assert_eq!(
        unknown_agent_error(
            "t-1",
            Some(vec!["/root/a".to_string(), "/root/b".to_string()])
        ),
        FunctionCallError::RespondToModel(
            "agent with id t-1 not found. Addressable agents (use one as the target): \
             /root/a, /root/b"
                .to_string()
        )
    );
    assert_eq!(
        unknown_agent_error("t-1", None),
        FunctionCallError::RespondToModel(
            "agent with id t-1 not found. Addressable agents (use one as the target): "
                .to_string()
        )
    );
    match after_delivery(DeliveryOutcome::InvalidRequest("self".to_string())) {
        DeliveryStep::Reject(error) => assert_eq!(
            error,
            FunctionCallError::RespondToModel("self".to_string())
        ),
        other => panic!("expected a rejection, got {other:?}"),
    }
    match after_delivery(DeliveryOutcome::AgentFailed(FunctionCallError::Fatal(
        "x".to_string(),
    ))) {
        DeliveryStep::Reject(error) => {
            assert_eq!(error, FunctionCallError::Fatal("x".to_string()))
        }
        other => panic!("expected a rejection, got {other:?}"),
    }
    match after_delivery(DeliveryOutcome::Delivered("/root/a".to_string())) {
        DeliveryStep::ReportActivity(path) => assert_eq!(path, "/root/a"),
        other => panic!("expected a report, got {other:?}"),
    }
}
