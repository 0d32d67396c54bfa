use codex_zcode::json::Json;
use codex_zcode::message_tool::FunctionCallError;
use codex_zcode::zcode_tools::node_from_value;
use codex_zcode::zcode_tools::normalize_search_results;
use codex_zcode::zcode_tools::prompt_arguments;
use codex_zcode::zcode_tools::prompt_cwd;
use codex_zcode::zcode_tools::prompt_output;
use codex_zcode::zcode_tools::prompt_reply;
use codex_zcode::zcode_tools::prompt_tool_definition;
use codex_zcode::zcode_tools::runtime_from_value;
use codex_zcode::zcode_tools::search_body;
use codex_zcode::zcode_tools::search_endpoint_from_value;
use codex_zcode::zcode_tools::search_reply;
use codex_zcode::zcode_tools::search_results;
use codex_zcode::zcode_tools::search_tool_definition;
use codex_zcode::zcode_tools::string_field;
use codex_zcode::zcode_tools::ParameterKind;
use codex_zcode::zcode_tools::PromptRun;
use codex_zcode::zcode_tools::ZCodePromptArgs;
use codex_zcode::zcode_tools::ZaiSearchArgs;

fn json(text: &str) -> Json {
    Json::read(text).expect("fixture parses")
}

fn args() -> ZCodePromptArgs {
    ZCodePromptArgs {
        prompt: "do it".to_string(),
        session_id: None,
        cwd: None,
        mode: None,
        max_turns: None,
    }
}

fn told<T>(message: &str) -> Result<T, FunctionCallError> {
    Err(FunctionCallError::RespondToModel(message.to_string()))
}

fn exited(success: bool, stdout: &[u8], stderr: &[u8]) -> PromptRun {
    PromptRun::Exited {
        success,
        status: "exit status: 1".to_string(),
        stdout: stdout.to_vec(),
        stderr: stderr.to_vec(),
    }
}

#[test]
fn tasks_run_with_defaults() {
    assert_eq!(
        prompt_arguments(&args(), "/zcode.cjs", "/repo"),
        vec![
            "/zcode.cjs", "--prompt", "do it", "--json", "--mode", "yolo", "--cwd", "/repo"
        ]
    );
    let full = ZCodePromptArgs {
        session_id: Some("s1".to_string()),
        cwd: Some("/asked".to_string()),
        mode: Some("plan".to_string()),
        max_turns: Some(30),
        ..args()
    };
    assert_eq!(
        prompt_arguments(&full, "z", "/asked"),
        vec![
            "z", "--prompt", "do it", "--json", "--mode", "plan", "--cwd", "/asked", "--resume",
            "s1", "--max-turns", "30"
        ]
    );
    assert_eq!(prompt_cwd(&full, Some("/env"), "/cur"), "/asked");
    assert_eq!(prompt_cwd(&args(), Some("/env"), "/cur"), "/env");
    assert_eq!(prompt_cwd(&args(), None, "/cur"), "/cur");
}

#[test]
fn settings_have_defaults() {
    assert_eq!(
        runtime_from_value(None),
        "/opt/ZCode/resources/glm/zcode.cjs"
    );
    assert_eq!(runtime_from_value(Some("/z")), "/z");
    assert_eq!(node_from_value(None), "node");
    assert_eq!(
        search_endpoint_from_value(None),
        "http://127.0.0.1:18765/zai/v1/responses"
    );
    assert_eq!(search_endpoint_from_value(Some("http://x")), "http://x");
}

#[test]
fn task_results_are_shortened() {
    let run = exited(
        true,
        br#"{"sessionId":"s1","response":"done","usage":{"total":3},"extra":1}"#,
        b"",
    );
    assert_eq!(
        prompt_reply(&run),
        Ok("{\n  \"response\": \"done\",\n  \"sessionId\": \"s1\",\n  \"usage\": {\n    \"total\": 3\n  }\n}".to_string())
    );
    assert_eq!(
        prompt_output(&json(r#"{"sessionId":"s1"}"#)).unwrap().render(),
        r#"{"response":"","sessionId":"s1","usage":null}"#
    );
    assert_eq!(
        prompt_output(&json(r#"{"response":"x"}"#)),
        told("ZCode output is missing sessionId")
    );
}

#[test]
fn failed_tasks_tell_the_model_why() {
    assert_eq!(
        prompt_reply(&PromptRun::TimedOut),
        told("ZCode timed out after 20 minutes")
    );
    assert_eq!(
        prompt_reply(&PromptRun::LaunchFailed("no such file".to_string())),
        told("could not launch ZCode: no such file")
    );
    assert_eq!(
        prompt_reply(&exited(false, b"", b"bad \xff byte")),
        told("ZCode failed (exit status: 1): bad \u{fffd} byte")
    );
    match prompt_reply(&exited(true, b"oops", b"")) {
        Err(FunctionCallError::RespondToModel(message)) => {
            assert!(message.starts_with("invalid ZCode JSON output: expected"), "{message}");
            assert!(message.ends_with("; oops"), "{message}");
        }
        other => panic!("expected an error, got {other:?}"),
    }
    assert_eq!(
        prompt_reply(&exited(true, b"{}", b"")),
        told("ZCode output is missing sessionId")
    );
}

#[test]
fn searches_ask_for_a_bounded_json_list() {
    let body = search_body(&ZaiSearchArgs {
        query: "rust".to_string(),
        count: None,
    });
    assert_eq!(
        body.render(),
        concat_body("Search the web for: rust. Return only the results as a JSON array of objects with title, url, and snippet fields. Limit to 5 results.")
    );
    let body = search_body(&ZaiSearchArgs {
        query: "q".to_string(),
        count: Some(12),
    });
    assert!(body.str_at("input").unwrap().ends_with("Limit to 12 results."));
}

fn concat_body(input: &str) -> String {
    format!(
        r#"{{"input":"{input}","max_output_tokens":2048,"model":"glm-5-turbo","stream":false,"tools":[{{"type":"web_search","web_search":{{"enable":true,"search_engine":"search-prime"}}}}]}}"#
    )
}

#[test]
fn results_written_by_the_model_are_taken_as_they_are() {
    let response = json(
        r#"{"output":[{"content":[{"text":" [{\"title\":\"T\"}] "}]}],"search_result":[{"title":"other"}]}"#,
    );
    assert_eq!(
        normalize_search_results(&response).render(),
        r#"{"engine":"zai-web","results":[{"title":"T"}]}"#
    );
    let response = json(r#"{"output":[{"content":[{"text":"{\"results\":1}"}]}]}"#);
    assert_eq!(
        normalize_search_results(&response).render(),
        r#"{"engine":"zai-web","results":{"results":1}}"#
    );
}

#[test]
fn listed_results_are_brought_into_one_shape() {
    let response = json(
        r#"{"output":[{"content":[{"text":"{\"other\":1}"}]}],
            "data":{"search_results":[
                {"name":"N","link":"http://l","summary":"S","noise":1},
                {"title":"","name":"unused","web_url":"http://w"},
                {"noise":1},
                "text",
                {"title":3,"description":"D"}
            ]}}"#,
    );
    assert_eq!(
        normalize_search_results(&response).render(),
        r#"{"engine":"search-prime","results":[{"snippet":"S","title":"N","url":"http://l"},{"url":"http://w"},{"snippet":"D"}]}"#
    );
    // The first place that holds anything counts, even if it is no list.
    let response = json(r#"{"search_result":"none","results":[{"title":"T"}]}"#);
    assert_eq!(
        search_results(&response, Err("no text".to_string())).render(),
        r#"{"engine":"search-prime","results":[]}"#
    );
    let response = json(r#"{"results":[{"title":"T"}]}"#);
    assert_eq!(
        search_results(&response, Ok(json("7"))).render(),
        r#"{"engine":"search-prime","results":[{"title":"T"}]}"#
    );
}

#[test]
fn search_replies_depend_on_the_status() {
    assert_eq!(
        search_reply(false, "502 Bad Gateway", "down"),
        told("Z.AI search failed (502 Bad Gateway): down")
    );
    assert_eq!(
        search_reply(true, "200 OK", r#"{"results":[]}"#),
        Ok("{\n  \"engine\": \"search-prime\",\n  \"results\": []\n}".to_string())
    );
    assert!(matches!(
        search_reply(true, "200 OK", "<html>"),
        Err(FunctionCallError::Fatal(_))
    ));
}

#[test]
fn the_first_string_counts() {
    let value = json(r#"{"a":1,"b":"","c":"x"}"#);
    assert_eq!(string_field(&value, &["a", "c"]), "x");
    assert_eq!(string_field(&value, &["b", "c"]), "");
    assert_eq!(string_field(&value, &["d"]), "");
    assert_eq!(string_field(&value, &[]), "");
}

#[test]
fn tools_are_offered_with_their_parameters() {
    let prompt = prompt_tool_definition();
    assert_eq!(prompt.name, "zcode_prompt");
    assert!(!prompt.parallel);
    let required: Vec<&str> = prompt
        .parameters
        .iter()
        .filter(|parameter| parameter.required)
        .map(|parameter| parameter.name)
        .collect();
    assert_eq!(required, vec!["prompt"]);
    match &prompt.parameters[3].kind {
        ParameterKind::OneOf(modes) => {
            assert_eq!(modes, &vec!["build", "edit", "plan", "yolo"])
        }
        other => panic!("expected choices, got {other:?}"),
    }
    let search = search_tool_definition();
    assert_eq!(search.name, "zai_search");
    assert!(search.parallel);
    assert_eq!(search.parameters.len(), 2);
}

#[test]
fn normalized_results_are_no_more_than_the_listed_ones() {
    let response = json(r#"{"results":[{"title":"T","x":1},{},{"description":""},{"link":"L"}]}"#);
    let results = normalize_search_results(&response);
    let items = results.get("results").unwrap().as_array().unwrap();
    assert_eq!(items.len(), 2);
    assert_eq!(items[0].render(), r#"{"title":"T"}"#);
    assert_eq!(items[1].render(), r#"{"url":"L"}"#);
}
