use codex_zcode::model_completion::completion_prompt;
use codex_zcode::model_completion::CompletionCollector;
use codex_zcode::model_completion::CompletionInput;
use codex_zcode::model_completion::CompletionOutput;
use codex_zcode::model_completion::CompletionRequest;
use codex_zcode::model_completion::ModelCompletion;
use codex_zcode::model_completion::NoopModelCompletion;
use codex_zcode::protocol::assistant_message;
use codex_zcode::protocol::ContentItem;
use codex_zcode::protocol::ResponseEvent;
use codex_zcode::protocol::ResponseItem;

fn request(input: &str) -> CompletionRequest {
    CompletionRequest {
        input: input.to_string(),
    }
}

fn done(item: ResponseItem) -> CompletionInput {
    CompletionInput::Event(ResponseEvent::OutputItemDone(item))
}

fn completed() -> CompletionInput {
    CompletionInput::Event(ResponseEvent::Completed {
        response_id: "r".to_string(),
        token_usage: None,
        end_turn: None,
    })
}

fn message(end: Option<Result<CompletionOutput, String>>) -> Option<Result<String, String>> {
    end.map(|end| end.map(|output| output.message))
}

#[test]
fn missing_models_always_fail() {
    let error = NoopModelCompletion::default()
        .complete(request("judge this"))
        .unwrap_err();
    assert_eq!(error, "host model completion is unavailable");
}

#[test]
fn prompts_hold_the_input_alone() {
    let prompt = completion_prompt(true, request("judge this")).unwrap();
    assert_eq!(
        prompt,
        vec![ResponseItem::Message {
            role: "user".to_string(),
            content: vec![ContentItem::InputText {
                text: "judge this".to_string()
            }],
        }]
    );
}

#[test]
fn inputs_over_budget_and_dead_sessions_are_refused() {
    assert!(completion_prompt(true, request(&"x".repeat(32_768))).is_ok());
    assert_eq!(
        completion_prompt(true, request(&"x".repeat(32_769))),
        Err("model completion input exceeded the 32768 character budget".to_string())
    );
    // The budget counts bytes.
    assert!(completion_prompt(true, request(&"\u{e9}".repeat(16_385))).is_err());
    assert_eq!(
        completion_prompt(false, request("x")),
        Err("session ended before the model completion ran".to_string())
    );
}

#[test]
fn the_last_assistant_message_is_the_answer() {
    let mut collector = CompletionCollector::new();
    assert!(collector
        .step(done(assistant_message("first".to_string())))
        .is_none());
    assert!(collector
        .step(CompletionInput::Event(ResponseEvent::OutputTextDelta(
            "x".to_string()
        )))
        .is_none());
    assert!(collector
        .step(done(ResponseItem::Message {
            role: "assistant".to_string(),
            content: vec![
                ContentItem::OutputText {
                    text: "sec".to_string()
                },
                ContentItem::InputText {
                    text: "not written".to_string()
                },
                ContentItem::OutputText {
                    text: "ond".to_string()
                },
            ],
        }))
        .is_none());
    assert!(collector
        .step(done(assistant_message(" \n".to_string())))
        .is_none());
    assert!(collector
        .step(done(ResponseItem::Message {
            role: "user".to_string(),
            content: vec![ContentItem::OutputText {
                text: "user".to_string()
            }],
        }))
        .is_none());
    assert_eq!(
        message(collector.step(completed())),
        Some(Ok("second".to_string()))
    );
}

#[test]
fn streams_that_do_not_complete_are_errors() {
    let mut collector = CompletionCollector::new();
    assert_eq!(
        message(collector.step(completed())),
        Some(Err(
            "model completion ended without an assistant message".to_string()
        ))
    );
    assert_eq!(
        message(collector.step(CompletionInput::NotStarted("no auth".to_string()))),
        Some(Err("model completion stream failed: no auth".to_string()))
    );
    assert_eq!(
        message(collector.step(CompletionInput::Failed("reset".to_string()))),
        Some(Err("model completion stream error: reset".to_string()))
    );
    assert_eq!(
        message(collector.step(CompletionInput::Closed)),
        Some(Err(
            "model completion stream closed before completing".to_string()
        ))
    );
}
