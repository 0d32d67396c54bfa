use codex_zcode::goal_verifier::build_judge_input;
use codex_zcode::goal_verifier::conclude;
use codex_zcode::goal_verifier::parse_verdict;
use codex_zcode::goal_verifier::render_item;
use codex_zcode::goal_verifier::render_transcript;
use codex_zcode::goal_verifier::verify_goal_completion;
use codex_zcode::goal_verifier::CompletionVerdict;
use codex_zcode::goal_verifier::JUDGE_INSTRUCTIONS;
use codex_zcode::model_completion::CompletionOutput;
use codex_zcode::model_completion::CompletionRequest;
use codex_zcode::model_completion::ModelCompletion;
use codex_zcode::model_completion::NoopModelCompletion;
use codex_zcode::protocol::ContentItem;
use codex_zcode::protocol::FunctionCallOutputBody;
use codex_zcode::protocol::OutputContentItem;
use codex_zcode::protocol::ResponseItem;

fn message(role: &str, texts: &[&str]) -> ResponseItem {
    ResponseItem::Message {
        role: role.to_string(),
        content: texts
            .iter()
            .map(|text| ContentItem::OutputText {
                text: text.to_string(),
            })
            .collect(),
    }
}

struct Judge {
    answer: &'static str,
}

impl ModelCompletion for Judge {
    fn complete(&self, request: CompletionRequest) -> Result<CompletionOutput, String> {
        assert_eq!(
            request.input,
            format!(
                "{JUDGE_INSTRUCTIONS}\n\nGoal: Ship it\n\nConversation transcript:\nuser: go\nassistant: done"
            )
        );
        Ok(CompletionOutput {
            message: self.answer.to_string(),
        })
    }
}

#[test]
fn the_judge_sees_the_goal_and_the_transcript() {
    let history = vec![message("user", &["go"]), message("assistant", &["done"])];
    assert_eq!(
        verify_goal_completion(&Judge { answer: "PASS" }, "Ship it", &history),
        Ok(CompletionVerdict::Passed)
    );
    assert_eq!(
        verify_goal_completion(
            &Judge {
                answer: "FAIL: tests are missing"
            },
            "Ship it",
            &history
        ),
        Ok(CompletionVerdict::NotPassed("tests are missing".to_string()))
    );
    assert_eq!(
        verify_goal_completion(&Judge { answer: "maybe" }, "Ship it", &history),
        Err("verification model answer was not PASS or FAIL: maybe".to_string())
    );
}

#[test]
fn a_missing_model_fails_closed() {
    assert_eq!(
        verify_goal_completion(&NoopModelCompletion, "Ship it", &[]),
        Err("verification model call failed: host model completion is unavailable".to_string())
    );
}

#[test]
fn verdicts_are_read_leniently_but_only_from_the_first_word() {
    for pass in ["PASS", "pass.", " Passed! ", "PASS: all good", "pass\nmore"] {
        assert_eq!(
            parse_verdict(pass),
            Some(CompletionVerdict::Passed),
            "{pass:?}"
        );
    }
    for none in ["", "It did PASS", "PASSING", "failure", "PASS,", "\u{212a}PASS"] {
        assert_eq!(parse_verdict(none), None, "{none:?}");
    }
    let fail = |reason: &str| Some(CompletionVerdict::NotPassed(reason.to_string()));
    assert_eq!(parse_verdict("FAIL: not done"), fail("not done"));
    assert_eq!(parse_verdict("failed  ::: not done "), fail("not done"));
    assert_eq!(parse_verdict("failed : :: not done"), fail(":: not done"));
    assert_eq!(parse_verdict("FAIL"), fail("FAIL"));
    assert_eq!(parse_verdict(" Fail!: "), fail("Fail!:"));
    assert_eq!(
        parse_verdict(&format!("FAIL: {}", "x".repeat(600))),
        fail(&format!("{}\u{2026}", "x".repeat(499)))
    );
    assert_eq!(
        parse_verdict(&format!("FAIL: {}", "x".repeat(500))),
        fail(&"x".repeat(500))
    );
    // Without a stated reason the answer itself is quoted, under the same cap.
    assert_eq!(
        parse_verdict(&format!("FAIL{}", "!".repeat(600))),
        fail(&format!("FAIL{}\u{2026}", "!".repeat(495)))
    );
}

#[test]
fn conclusions_quote_what_went_wrong() {
    assert_eq!(
        conclude(Err("no route".to_string())),
        Err("verification model call failed: no route".to_string())
    );
    let long = "y".repeat(700);
    assert_eq!(
        conclude(Ok(CompletionOutput {
            message: format!(" {long} ")
        })),
        Err(format!(
            "verification model answer was not PASS or FAIL: {}\u{2026}",
            "y".repeat(499)
        ))
    );
}

#[test]
fn items_are_rendered_with_their_kind() {
    assert_eq!(
        render_item(&message("assistant", &["a", "b"])).as_deref(),
        Some("assistant: a b")
    );
    assert_eq!(render_item(&message("assistant", &[" ", "\n"])), None);
    assert_eq!(
        render_item(&ResponseItem::FunctionCall {
            name: "exec".to_string(),
            arguments: "{}".to_string(),
            encrypted_function_args: None,
            call_id: "c".to_string(),
        })
        .as_deref(),
        Some("assistant invoked tool exec with arguments: {}")
    );
    assert_eq!(
        render_item(&ResponseItem::FunctionCallOutput {
            body: FunctionCallOutputBody::Text("ok".to_string()),
        })
        .as_deref(),
        Some("tool output: ok")
    );
    assert_eq!(
        render_item(&ResponseItem::FunctionCallOutput {
            body: FunctionCallOutputBody::ContentItems(vec![
                OutputContentItem::InputText {
                    text: "one".to_string()
                },
                OutputContentItem::InputImage,
                OutputContentItem::EncryptedContent,
                OutputContentItem::InputText {
                    text: "two".to_string()
                },
            ]),
        })
        .as_deref(),
        Some("tool output: one two")
    );
    assert_eq!(
        render_item(&ResponseItem::FunctionCallOutput {
            body: FunctionCallOutputBody::Text(" ".to_string()),
        }),
        None
    );
    assert_eq!(render_item(&ResponseItem::Other), None);
    let long = render_item(&message("user", &[&"z".repeat(5_000)])).unwrap();
    assert_eq!(long.chars().count(), 4_000);
    let full = render_item(&message("user", &[&"z".repeat(3_994)])).unwrap();
    assert_eq!(full, format!("user: {}", "z".repeat(3_994)));
    assert!(long.starts_with("user: zzz") && long.ends_with('\u{2026}'));
}

#[test]
fn transcripts_keep_the_newest_lines_within_the_budget() {
    let items: Vec<ResponseItem> = ["a", "b", "c", "d", "e", "f"]
        .iter()
        .map(|text| message("user", &[&text.repeat(3_000)]))
        .collect();
    let transcript = render_transcript(&items);
    let lines: Vec<&str> = transcript.split('\n').collect();
    assert_eq!(lines.len(), 5);
    assert!(lines[0].starts_with("user: bbb"));
    assert!(lines[4].starts_with("user: fff"));
    assert_eq!(render_transcript(&[]), "");
    // The line feeds between the lines count as well.
    let full: Vec<ResponseItem> = (0..4)
        .map(|_| message("user", &[&"x".repeat(3_994)]))
        .collect();
    assert_eq!(render_transcript(&full).chars().count(), 3 * 4_000 + 2);
    let exact: Vec<ResponseItem> = [3_991, 3_994, 3_994, 3_994]
        .iter()
        .map(|len| message("user", &[&"x".repeat(*len)]))
        .collect();
    assert_eq!(render_transcript(&exact).chars().count(), 16_000);
    assert_eq!(
        build_judge_input("o", "t"),
        format!("{JUDGE_INSTRUCTIONS}\n\nGoal: o\n\nConversation transcript:\nt")
    );
}
