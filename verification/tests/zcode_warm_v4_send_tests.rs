use codex_zcode::json::Json;
use codex_zcode::zcode_warm_v4_send::after_first_send;
use codex_zcode::zcode_warm_v4_send::channel_from_value;
use codex_zcode::zcode_warm_v4_send::first_send_request;
use codex_zcode::zcode_warm_v4_send::legacy_verdict;
use codex_zcode::zcode_warm_v4_send::queued_delivery;
use codex_zcode::zcode_warm_v4_send::SendStep;
use codex_zcode::zcode_warm_v4_send::TurnInputChannel;

#[test]
fn channel_flag_parsing() {
    assert_eq!(channel_from_value(None), TurnInputChannel::LegacySend);
    assert_eq!(channel_from_value(Some("0")), TurnInputChannel::LegacySend);
    assert_eq!(
        channel_from_value(Some("off")),
        TurnInputChannel::LegacySend
    );
    assert_eq!(
        channel_from_value(Some("garbage")),
        TurnInputChannel::LegacySend
    );
    assert_eq!(channel_from_value(Some("1")), TurnInputChannel::V4Command);
    assert_eq!(
        channel_from_value(Some("true")),
        TurnInputChannel::V4Command
    );
    assert_eq!(
        channel_from_value(Some(" yes ")),
        TurnInputChannel::V4Command
    );
}

fn json(text: &str) -> Json {
    Json::read(text).expect("fixture parses")
}

#[test]
fn legacy_input_is_sent_and_judged() {
    let request = first_send_request(TurnInputChannel::LegacySend, "s", "hi", "c", 5);
    assert_eq!(request.method, "session/send");
    assert_eq!(
        request.params.render(),
        r#"{"content":"hi","sessionId":"s"}"#
    );
    for (answer, expected) in [
        (Ok(json(r#"{"accepted":true}"#)), Ok(())),
        (
            Ok(json(r#"{"accepted":1}"#)),
            Err(r#"session/send was not accepted: {"accepted":1}"#.to_string()),
        ),
        (
            Err("session/send timed out".to_string()),
            Err("session/send timed out".to_string()),
        ),
    ] {
        match after_first_send(TurnInputChannel::LegacySend, "s", "hi", answer) {
            SendStep::Done(verdict) => assert_eq!(verdict, expected),
            other => panic!("expected a verdict, got {other:?}"),
        }
    }
}

#[test]
fn commands_fall_back_to_the_legacy_surface() {
    let request = first_send_request(TurnInputChannel::V4Command, "s", "hi", "c0ffee", 1234);
    assert_eq!(request.method, "v4/command");
    assert_eq!(
        request.params.render(),
        r#"{"clientId":"codex-zcode-warm","commandId":"c0ffee","issuedAt":1234,"payload":{"requestedDelivery":"startNow","text":"hi"},"sessionId":"s","type":"sendText"}"#
    );
    match after_first_send(
        TurnInputChannel::V4Command,
        "s",
        "hi",
        Ok(json(r#"{"status":"accepted"}"#)),
    ) {
        SendStep::Done(verdict) => assert_eq!(verdict, Ok(())),
        other => panic!("expected a verdict, got {other:?}"),
    }
    match after_first_send(
        TurnInputChannel::V4Command,
        "s",
        "hi",
        Ok(json(r#"{"status":"rejected"}"#)),
    ) {
        SendStep::FallBack { request, message } => {
            assert_eq!(request.method, "session/send");
            assert_eq!(
                request.params.render(),
                r#"{"content":"hi","sessionId":"s"}"#
            );
            assert_eq!(
                message,
                r#"v4/command was not accepted: {"status":"rejected"}"#
            );
        }
        other => panic!("expected a fallback, got {other:?}"),
    }
    assert_eq!(
        legacy_verdict(Ok(json(r#"{"accepted":true}"#))),
        Ok(())
    );
}

#[test]
fn queued_commands_are_noticed() {
    assert_eq!(
        queued_delivery(&json(r#"{"result":{"delivery":"queued"}}"#)),
        Some("queued")
    );
    assert_eq!(
        queued_delivery(&json(r#"{"result":{"delivery":"startNow"}}"#)),
        None
    );
    assert_eq!(queued_delivery(&json("{}")), None);
}
