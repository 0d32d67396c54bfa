use codex_zcode::json::Json;
use codex_zcode::protocol::assistant_message;
use codex_zcode::protocol::ApiError;
use codex_zcode::protocol::ContentItem;
use codex_zcode::protocol::ResponseEvent;
use codex_zcode::protocol::ResponseItem;
use codex_zcode::protocol::TokenUsage;
use codex_zcode::protocol::ToolSpec;
use codex_zcode::zcode_warm::CollectorAction;
use codex_zcode::zcode_warm::CollectorInput;
use codex_zcode::zcode_warm_goal::goal_objective_from_prompt;
use codex_zcode::zcode_warm_goal::goal_pause_params;
use codex_zcode::zcode_warm_goal::goal_set_params;
use codex_zcode::zcode_warm_goal::mirror_start;
use codex_zcode::zcode_warm_goal::mirrored_goal_objective_for;
use codex_zcode::zcode_warm_goal::settle_from_update;
use codex_zcode::zcode_warm_goal::GoalCollector;
use codex_zcode::zcode_warm_goal::Settle;

fn json(text: &str) -> Json {
    Json::read(text).expect("fixture parses")
}

fn user_message(text: &str) -> ResponseItem {
    ResponseItem::Message {
        role: "user".to_string(),
        content: vec![ContentItem::InputText {
            text: text.to_string(),
        }],
    }
}

fn goal_tool_spec() -> ToolSpec {
    ToolSpec::Function {
        name: "update_goal".to_string(),
    }
}

fn continuation_prompt(objective: &str) -> String {
    format!(
        "Continue working toward the active thread goal.\n\n<objective>\n{objective}\n\
         </objective>\n\nCompletion audit: verify before claiming done."
    )
}

fn event(kind: &str, payload: &str) -> CollectorInput {
    CollectorInput::Notification(json(&format!(
        r#"{{"sessionId":"sess_fake","type":"{kind}","payload":{payload}}}"#
    )))
}

fn delta(text: &str) -> CollectorInput {
    event(
        "model.streaming",
        &format!(r#"{{"kind":"text_delta","delta":"{text}"}}"#),
    )
}

fn turn_completed() -> CollectorInput {
    event(
        "turn.completed",
        r#"{"response":"unused","resultType":"success","usage":{"inputTokens":7,"outputTokens":3,"totalTokens":10}}"#,
    )
}

fn status(status: &str) -> CollectorInput {
    event(
        "session.updated",
        &format!(r#"{{"target":{{"status":"{status}"}}}}"#),
    )
}

fn completed_event(input_tokens: i64, output_tokens: i64, total_tokens: i64) -> CollectorAction {
    CollectorAction::Emit(ResponseEvent::Completed {
        response_id: "zcode_warm_1".to_string(),
        token_usage: Some(TokenUsage {
            input_tokens,
            output_tokens,
            total_tokens,
            ..TokenUsage::default()
        }),
        end_turn: Some(true),
    })
}

#[test]
fn goal_objective_parses_from_the_continuation_template() {
    let input = vec![
        user_message("earlier user turn"),
        assistant_message("earlier reply".to_string()),
        user_message(&continuation_prompt("Ship the release notes")),
    ];
    assert_eq!(
        goal_objective_from_prompt(&input).as_deref(),
        Some("Ship the release notes")
    );
}

#[test]
fn goal_objective_ignores_prompts_without_the_template() {
    let input = vec![user_message(
        "plain user turn mentioning <objective> loosely",
    )];
    assert_eq!(goal_objective_from_prompt(&input), None);
    let empty_objective = vec![user_message("<objective>\n   \n</objective>")];
    assert_eq!(goal_objective_from_prompt(&empty_objective), None);
}

#[test]
fn mirror_selector_requires_env_goal_tool_and_objective() {
    let tools = vec![goal_tool_spec()];
    let input = vec![user_message(&continuation_prompt("Refactor the parser"))];
    assert_eq!(
        mirrored_goal_objective_for(Some("1"), &tools, &input).as_deref(),
        Some("Refactor the parser")
    );
    assert_eq!(mirrored_goal_objective_for(None, &tools, &input), None);
    assert_eq!(mirrored_goal_objective_for(Some("0"), &tools, &input), None);

    let plain_tools: Vec<ToolSpec> = Vec::new();
    assert_eq!(
        mirrored_goal_objective_for(Some("1"), &plain_tools, &input),
        None
    );

    let no_template = vec![user_message("plain turn")];
    assert_eq!(
        mirrored_goal_objective_for(Some("1"), &tools, &no_template),
        None
    );
}

#[test]
fn only_the_newest_user_message_counts_and_its_texts_are_joined() {
    let input = vec![
        user_message(&continuation_prompt("older")),
        user_message("newer without template"),
        assistant_message("reply".to_string()),
    ];
    assert_eq!(goal_objective_from_prompt(&input), None);
    let split = vec![ResponseItem::Message {
        role: "user".to_string(),
        content: vec![
            ContentItem::InputText {
                text: "<objective> two".to_string(),
            },
            ContentItem::InputImage,
            ContentItem::OutputText {
                text: "not input".to_string(),
            },
            ContentItem::InputText {
                text: "lines </objective>".to_string(),
            },
        ],
    }];
    assert_eq!(
        goal_objective_from_prompt(&split).as_deref(),
        Some("two\nlines")
    );
    let other = vec![ToolSpec::Other, ToolSpec::Function { name: "x".to_string() }];
    assert_eq!(
        mirrored_goal_objective_for(Some("yes"), &other, &split),
        None
    );
}

#[test]
fn long_objectives_are_cut() {
    let input = vec![user_message(&continuation_prompt(&"\u{e9}".repeat(4_500)))];
    let objective = goal_objective_from_prompt(&input).expect("objective found");
    assert_eq!(objective, "\u{e9}".repeat(4_000));
}

#[test]
fn mirrored_goal_turn_sets_the_goal_and_reports_verified_completion() {
    assert_eq!(
        goal_set_params("sess_fake", "Write the epic poem").render(),
        r#"{"action":"set","objective":"Write the epic poem","sessionId":"sess_fake"}"#
    );
    let mut collector = GoalCollector::new("sess_fake", "zcode_warm_1");
    let mut actions = Vec::new();
    for input in [delta("go"), delta("al"), turn_completed()] {
        actions.extend(collector.step(input));
        assert!(!collector.is_ended());
    }
    actions.extend(collector.step(status("complete")));
    assert!(collector.is_ended());
    assert_eq!(
        actions,
        vec![
            CollectorAction::EmitOrStop(ResponseEvent::OutputItemAdded(assistant_message(
                String::new()
            ))),
            CollectorAction::EmitOrStop(ResponseEvent::OutputTextDelta("go".to_string())),
            CollectorAction::EmitOrStop(ResponseEvent::OutputTextDelta("al".to_string())),
            CollectorAction::EmitOrEnd(ResponseEvent::OutputItemDone(assistant_message(
                "goal".to_string()
            ))),
            CollectorAction::Emit(ResponseEvent::OutputItemDone(ResponseItem::FunctionCall {
                name: "update_goal".to_string(),
                arguments: r#"{"status":"complete"}"#.to_string(),
                encrypted_function_args: Some(Vec::new()),
                call_id: "zcode_goal_zcode_warm_1".to_string(),
            })),
            completed_event(7, 3, 10),
        ]
    );
}

#[test]
fn mirrored_goal_turn_reports_paused_without_completion() {
    for ending in [
        status("paused"),
        status("budget_limited"),
        event("session.updated", r#"{"action":"cleared"}"#),
    ] {
        let mut collector = GoalCollector::new("sess_fake", "zcode_warm_1");
        collector.step(delta("goal"));
        assert_eq!(
            collector.step(turn_completed()),
            vec![CollectorAction::EmitOrEnd(ResponseEvent::OutputItemDone(
                assistant_message("goal".to_string())
            ))]
        );
        assert_eq!(
            collector.step(ending),
            vec![CollectorAction::StopTurn, completed_event(7, 3, 10)]
        );
        assert!(collector.is_ended());
    }
}

#[test]
fn mirrored_goal_turn_caps_runaway_loops_and_pauses_the_goal() {
    let mut collector = GoalCollector::new("sess_fake", "zcode_warm_1");
    let mut replies = 0;
    let mut last = Vec::new();
    for _ in 0..14 {
        if collector.is_ended() {
            break;
        }
        collector.step(delta("try"));
        last = collector.step(turn_completed());
        replies += 1;
    }
    assert_eq!(
        replies, 12,
        "the loop must stop at the turn cap, not drain the 14 turns"
    );
    assert_eq!(
        last,
        vec![
            CollectorAction::EmitOrEnd(ResponseEvent::OutputItemDone(assistant_message(
                "try".to_string()
            ))),
            CollectorAction::Request {
                method: "session/stop".to_string(),
                params: json(r#"{"sessionId":"sess_fake"}"#),
            },
            CollectorAction::Request {
                method: "session/goal".to_string(),
                params: goal_pause_params("sess_fake"),
            },
            CollectorAction::StopTurn,
            completed_event(7, 3, 10),
        ]
    );
    assert_eq!(
        goal_pause_params("sess_fake").render(),
        r#"{"action":"pause","sessionId":"sess_fake"}"#
    );
}

#[test]
fn mirrored_goal_turn_fails_when_the_set_is_refused() {
    let error = mirror_start(Err("session/goal failed: busy".to_string())).unwrap_err();
    assert!(
        error.contains("session/goal failed"),
        "unexpected error: {error}"
    );
}

#[test]
fn mirrored_goal_turn_fails_when_the_core_skips_the_goal_loop() {
    for answer in [r#"{"startedTurn":false}"#, "{}", r#"{"startedTurn":"true"}"#] {
        let error = mirror_start(Ok(json(answer))).unwrap_err();
        assert!(
            error.contains("did not start the goal loop"),
            "unexpected error: {error}"
        );
    }
    assert_eq!(mirror_start(Ok(json(r#"{"startedTurn":true}"#))), Ok(()));
}

#[test]
fn failures_end_the_loop_without_completion() {
    let mut collector = GoalCollector::new("sess_fake", "r");
    assert_eq!(
        collector.step(event("turn.completed", r#"{"resultType":"cancelled"}"#)),
        vec![CollectorAction::Fail(ApiError::InvalidRequest {
            message: "ZCode warm turn was cancelled".to_string()
        })]
    );
    assert!(collector.is_ended());
    let mut collector = GoalCollector::new("sess_fake", "r");
    assert_eq!(
        collector.step(event("turn.failed", r#"{"error":{"message":"boom"}}"#)),
        vec![CollectorAction::Fail(ApiError::Stream("boom".to_string()))]
    );
    assert!(collector.is_ended());
    let mut collector = GoalCollector::new("sess_fake", "r");
    assert_eq!(
        collector.step(CollectorInput::Elapsed),
        vec![
            CollectorAction::Kill("mirrored goal turn stalled".to_string()),
            CollectorAction::Fail(ApiError::Stream(
                "ZCode warm goal loop stalled: no session events before the idle window elapsed"
                    .to_string()
            )),
        ]
    );
    let mut collector = GoalCollector::new("sess_fake", "r");
    assert_eq!(
        collector.step(CollectorInput::Closed),
        vec![CollectorAction::Fail(ApiError::Stream(
            "ZCode warm app-server event stream closed".to_string()
        ))]
    );
}

#[test]
fn updates_settle_only_when_they_say_so() {
    assert_eq!(settle_from_update(None), None);
    assert_eq!(
        settle_from_update(Some(&json(r#"{"target":{"status":"active"}}"#))),
        None
    );
    assert_eq!(
        settle_from_update(Some(&json(
            r#"{"target":{"status":"active"},"action":"cleared"}"#
        ))),
        Some(Settle::WithoutComplete)
    );
    assert_eq!(
        settle_from_update(Some(&json(
            r#"{"target":{"status":"complete"},"action":"cleared"}"#
        ))),
        Some(Settle::Complete)
    );
    let mut collector = GoalCollector::new("sess_fake", "r");
    assert_eq!(collector.step(CollectorInput::Lagged), Vec::new());
    assert_eq!(
        collector.step(CollectorInput::Notification(json(
            r#"{"sessionId":"sess_other","type":"session.updated","payload":{"target":{"status":"complete"}}}"#
        ))),
        Vec::new()
    );
    assert!(!collector.is_ended());
}

#[test]
fn tool_names_outlive_a_turn_but_text_does_not() {
    let mut collector = GoalCollector::new("sess_fake", "r");
    collector.step(event(
        "tool_call_scheduled",
        r#"{"toolCallId":"t","toolName":"Bash"}"#,
    ));
    collector.step(delta("one"));
    collector.step(turn_completed());
    let actions = collector.step(delta("two"));
    assert_eq!(actions.len(), 2, "the next turn announces its own item");
    match &collector.step(event(
        "tool_call_result",
        r#"{"toolCallId":"t","result":{"content":"ok"}}"#,
    ))[0]
    {
        CollectorAction::EmitOrStop(ResponseEvent::BridgeToolActivity(activity)) => {
            assert_eq!(activity.tool, "Bash")
        }
        other => panic!("expected tool activity, got {other:?}"),
    }
    assert_eq!(
        collector.step(turn_completed())[0],
        CollectorAction::EmitOrEnd(ResponseEvent::OutputItemDone(assistant_message(
            "two".to_string()
        )))
    );
}
