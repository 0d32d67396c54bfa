use codex_zcode::json::Json;
use codex_zcode::zcode_warm::WarmMode;
use codex_zcode::zcode_warm_resume::missed_events_summary;
use codex_zcode::zcode_warm_resume::Handshake;
use codex_zcode::zcode_warm_resume::HandshakeStep;
use codex_zcode::zcode_warm_resume::SessionSeed;
use codex_zcode::zcode_warm_store::ZcodeWarmRecord;

fn json(text: &str) -> Json {
    Json::read(text).expect("fixture parses")
}

/// A core that answers like a healthy one, except for what is switched off.
struct Core {
    listed: bool,
    fails_resume: bool,
    rejects_create: bool,
}

impl Core {
    fn healthy() -> Self {
        Core {
            listed: true,
            fails_resume: false,
            rejects_create: false,
        }
    }

    fn answer(&self, method: &str, params: &Json) -> Result<Json, String> {
        match method {
            "session/list" if self.listed => {
                let id = params.get("sessionIds").unwrap().first().unwrap().clone();
                Ok(Json::object().with(
                    "sessions",
                    Json::Array(vec![Json::object().with("sessionId", id)]),
                ))
            }
            "session/list" => Ok(json(r#"{"sessions":[]}"#)),
            "session/resume" if self.fails_resume => {
                Err("session/resume failed: session not found".to_string())
            }
            "session/resume" => Ok(json("{}")),
            "session/create" if self.rejects_create => {
                Err("session/create failed: no".to_string())
            }
            "session/create" => Ok(json(
                r#"{"session":{"sessionId":"sess_fake"},"protocol":{"name":"ZCode Protocol","version":1}}"#,
            )),
            "session/subscribe" => Ok(json(r#"{"eventSeq":7,"events":[]}"#)),
            other => panic!("unexpected request {other}"),
        }
    }
}

/// Runs a handshake in `/tmp` and returns what was sent and how it ended.
fn run(
    core: &Core,
    seed: SessionSeed,
    mode: WarmMode,
) -> (Vec<String>, Result<String, String>, Option<u64>) {
    let mut handshake = Handshake::new(&seed, "/tmp", mode);
    let mut step = handshake.request();
    let mut sent = Vec::new();
    loop {
        match step {
            HandshakeStep::Request { method, params } => {
                sent.push(format!("{method} {}", params.render()));
                step = handshake.step(core.answer(method, &params));
            }
            HandshakeStep::Done { result, event_seq } => return (sent, result, event_seq),
        }
    }
}

const CREATE: &str = r#"session/create {"mode":"yolo","titleGenerationEnabled":false,"workspace":{"workspaceKey":"/tmp","workspacePath":"/tmp"}}"#;
const SUBSCRIBE: &str =
    r#"session/subscribe {"deliveryKind":"desktop-continuous","sessionId":"sess_fake"}"#;

fn recorded(session_id: &str, workspace_path: &str, last_event_seq: u64) -> SessionSeed {
    SessionSeed::Recorded(ZcodeWarmRecord {
        zcode_session_id: session_id.to_string(),
        workspace_path: workspace_path.to_string(),
        last_event_seq,
        protocol_version: None,
    })
}

#[test]
fn empty_gap_yields_no_summary() {
    assert_eq!(missed_events_summary("sess_fake", 7, &[]), None);
}

#[test]
fn summary_counts_types_and_names_the_latest_terminal_turn() {
    let events = vec![
        json(r#"{"seq": 8, "type": "model.streaming", "payload": {"kind": "text_delta", "delta": "lo"}}"#),
        json(r#"{"seq": 9, "type": "turn.completed", "payload": {"response": "step", "resultType": "success"}}"#),
        json(r#"{"seq": 10, "type": "session.updated", "payload": {}}"#),
        json(r#"{"seq": 11, "type": "turn.completed", "payload": {"response": "retry", "resultType": "budget_exhausted"}}"#),
    ];
    assert_eq!(
        missed_events_summary("sess_fake", 7, &events),
        Some(
            "ZCode warm session sess_fake: 4 event(s) while disconnected (after seq 7): \
             model.streaming×1, session.updated×1, turn.completed×2; latest terminal turn: \
             turn.completed(budget_exhausted)"
                .to_string()
        )
    );
}

#[test]
fn summary_reports_a_failed_terminal_turn() {
    let events = vec![json(
        r#"{"seq": 8, "type": "turn.failed", "payload": {"error": {"message": "core restarted"}}}"#,
    )];
    assert_eq!(
        missed_events_summary("sess_fake", 7, &events),
        Some(
            "ZCode warm session sess_fake: 1 event(s) while disconnected (after seq 7): \
             turn.failed×1; latest terminal turn: turn.failed(unknown)"
                .to_string()
        )
    );
}

#[test]
fn summary_survives_untyped_events() {
    let events = vec![
        json(r#"{"seq": 8}"#),
        json(r#"{"seq": 9, "type": "session.updated"}"#),
    ];
    assert_eq!(
        missed_events_summary("sess_fake", 7, &events),
        Some(
            "ZCode warm session sess_fake: 2 event(s) while disconnected (after seq 7): \
             session.updated×1, unknown×1; latest terminal turn: none"
                .to_string()
        )
    );
}

#[test]
fn summary_orders_types_like_the_standard_library() {
    let mut names = vec!["b", "a", "ab", "", "B", "\u{e9}", "a", "\u{10000}", "\u{ffff}"];
    let events: Vec<Json> = names
        .iter()
        .map(|name| Json::object().with("type", Json::text(name)))
        .collect();
    names.sort();
    names.dedup();
    let shown: Vec<String> = names
        .iter()
        .map(|name| format!("{name}×{}", if *name == "a" { 2 } else { 1 }))
        .collect();
    let summary = missed_events_summary("s", 0, &events).unwrap();
    assert!(
        summary.contains(&format!("(after seq 0): {};", shown.join(", "))),
        "{summary}"
    );
}

#[test]
fn fresh_bridges_create_and_subscribe() {
    let (sent, result, event_seq) = run(&Core::healthy(), SessionSeed::Fresh, WarmMode::Yolo);
    assert_eq!(sent, vec![CREATE, SUBSCRIBE]);
    assert_eq!(result, Ok("sess_fake".to_string()));
    assert_eq!(event_seq, Some(7));
    let (sent, _, _) = run(&Core::healthy(), SessionSeed::Fresh, WarmMode::Build);
    assert!(sent[0].contains(r#""mode":"build""#), "{}", sent[0]);
}

#[test]
fn respawned_bridge_resumes_the_previous_session_instead_of_creating() {
    let (sent, result, event_seq) = run(
        &Core::healthy(),
        SessionSeed::Predecessor("sess_fake".to_string()),
        WarmMode::Yolo,
    );
    assert_eq!(
        sent,
        vec![
            r#"session/resume {"sessionId":"sess_fake","workspace":{"workspaceKey":"/tmp","workspacePath":"/tmp"}}"#,
            SUBSCRIBE
        ]
    );
    assert_eq!(result, Ok("sess_fake".to_string()));
    assert_eq!(event_seq, Some(7));
}

#[test]
fn resume_failure_falls_back_to_creating_a_fresh_session() {
    let core = Core {
        fails_resume: true,
        ..Core::healthy()
    };
    let (sent, result, _) = run(
        &core,
        SessionSeed::Predecessor("sess_prev".to_string()),
        WarmMode::Yolo,
    );
    assert!(sent[0].starts_with("session/resume"));
    assert_eq!(&sent[1..], [CREATE, SUBSCRIBE]);
    assert_eq!(result, Ok("sess_fake".to_string()));
}

#[test]
fn recorded_session_is_adopted_via_list_and_resume() {
    let (sent, result, event_seq) =
        run(&Core::healthy(), recorded("sess_fake", "/tmp", 41), WarmMode::Yolo);
    assert_eq!(
        sent,
        vec![
            r#"session/list {"sessionIds":["sess_fake"],"workspace":{"workspaceKey":"/tmp","workspacePath":"/tmp"}}"#,
            r#"session/resume {"sessionId":"sess_fake","workspace":{"workspaceKey":"/tmp","workspacePath":"/tmp"}}"#,
            SUBSCRIBE
        ]
    );
    assert_eq!(result, Ok("sess_fake".to_string()));
    // The subscription pins the stream head.
    assert_eq!(event_seq, Some(7));
}

#[test]
fn recorded_session_missing_on_the_server_creates_a_fresh_one() {
    let core = Core {
        listed: false,
        ..Core::healthy()
    };
    let (sent, result, _) = run(&core, recorded("sess_gone", "/tmp", 0), WarmMode::Yolo);
    assert!(sent[0].starts_with("session/list"));
    assert_eq!(&sent[1..], [CREATE, SUBSCRIBE]);
    assert_eq!(result, Ok("sess_fake".to_string()));
}

#[test]
fn recorded_session_in_another_workspace_creates_a_fresh_one() {
    let (sent, result, _) = run(
        &Core::healthy(),
        recorded("sess_elsewhere", "/elsewhere", 3),
        WarmMode::Yolo,
    );
    assert_eq!(sent, vec![CREATE, SUBSCRIBE]);
    assert_eq!(result, Ok("sess_fake".to_string()));
}

#[test]
fn failed_creation_fails_the_handshake() {
    let core = Core {
        rejects_create: true,
        ..Core::healthy()
    };
    let (_, result, event_seq) = run(&core, SessionSeed::Fresh, WarmMode::Yolo);
    assert_eq!(result, Err("session/create failed: no".to_string()));
    assert_eq!(event_seq, None);

    let mut handshake = Handshake::new(&SessionSeed::Fresh, "/tmp", WarmMode::Yolo);
    match handshake.step(Ok(json(r#"{"session":{}}"#))) {
        HandshakeStep::Done { result, .. } => assert_eq!(
            result,
            Err(r#"session/create response carried no sessionId: {"session":{}}"#.to_string())
        ),
        other => panic!("expected the end, got {other:?}"),
    }

    let mut handshake = Handshake::new(&SessionSeed::Fresh, "/tmp", WarmMode::Yolo);
    handshake.step(Ok(json(r#"{"session":{"sessionId":"s"}}"#)));
    match handshake.step(Err("session/subscribe failed: x".to_string())) {
        HandshakeStep::Done { result, .. } => {
            assert_eq!(result, Err("session/subscribe failed: x".to_string()))
        }
        other => panic!("expected the end, got {other:?}"),
    }
}

#[test]
fn failed_resubscription_creates_a_fresh_session() {
    let seed = SessionSeed::Predecessor("sess_prev".to_string());
    let mut handshake = Handshake::new(&seed, "/tmp", WarmMode::Yolo);
    handshake.step(Ok(Json::Null));
    match handshake.step(Err("gone".to_string())) {
        HandshakeStep::Request { method, .. } => assert_eq!(method, "session/create"),
        other => panic!("expected a creation, got {other:?}"),
    }
}
