//! The two tools that reach ZCode: one independent headless task, and a web
//! search.

use crate::json;
use crate::json::json_at;
use crate::json::push_item;
use crate::json::text_at;
use crate::json::Json;
use crate::json::JsonModel;
use crate::message_tool::FunctionCallError;
use crate::message_tool::FunctionCallErrorModel;
use crate::text;
use vstd::prelude::*;

verus! {

broadcast use vstd::string::group_string_axioms;

/// Input of the `zcode_prompt` tool.
#[derive(Debug)]
pub struct ZCodePromptArgs {
    pub prompt: String,
    pub session_id: Option<String>,
    pub cwd: Option<String>,
    pub mode: Option<String>,
    pub max_turns: Option<u32>,
}

/// Input of the `zai_search` tool.
#[derive(Debug)]
pub struct ZaiSearchArgs {
    pub query: String,
    pub count: Option<u32>,
}

/// How long, in seconds, a headless task may run.
pub const ZCODE_PROMPT_TIMEOUT_SECS: u64 = 1200;

/// How long, in seconds, a search request may take.
pub const ZAI_SEARCH_TIMEOUT_SECS: u64 = 60;

/// The number of results asked for where the caller names none.
pub const DEFAULT_SEARCH_COUNT: u32 = 5;

/// An optional text, or a default.
pub open spec fn text_or(value: Option<Seq<char>>, default: Seq<char>) -> Seq<char> {
    match value {
        Some(text) => text,
        None => default,
    }
}

/// An optional setting, or its default.
pub fn setting_or(value: Option<&str>, default: &str) -> (setting: String)
    ensures
        setting@ == text_or(value.deep_view(), default@),
{
    match value {
        Some(text) => text.to_owned(),
        None => default.to_owned(),
    }
}

/// The headless runtime that a `ZCODE_CJS` value names.
pub fn runtime_from_value(value: Option<&str>) -> (runtime: String)
    ensures
        runtime@ == text_or(value.deep_view(), "/opt/ZCode/resources/glm/zcode.cjs"@),
{
    setting_or(value, "/opt/ZCode/resources/glm/zcode.cjs")
}

/// The node executable that a `ZCODE_NODE` value names.
pub fn node_from_value(value: Option<&str>) -> (node: String)
    ensures
        node@ == text_or(value.deep_view(), "node"@),
{
    setting_or(value, "node")
}

/// The search endpoint that a `ZAI_SEARCH_URL` value names.
pub fn search_endpoint_from_value(value: Option<&str>) -> (endpoint: String)
    ensures
        endpoint@ == text_or(value.deep_view(), "http://127.0.0.1:18765/zai/v1/responses"@),
{
    setting_or(value, "http://127.0.0.1:18765/zai/v1/responses")
}

/// The working directory of a task: the one asked for, else that of the active
/// environment, else the current one.
pub open spec fn task_cwd(
    asked: Option<Seq<char>>,
    environment: Option<Seq<char>>,
    current: Seq<char>,
) -> Seq<char> {
    text_or(asked, text_or(environment, current))
}

/// The working directory of a task: the one asked for, else that of the active
/// environment, else the current one.
pub fn prompt_cwd(args: &ZCodePromptArgs, environment: Option<&str>, current: &str) -> (cwd: String)
    ensures
        cwd@ == task_cwd(args.cwd.deep_view(), environment.deep_view(), current@),
{
    match &args.cwd {
        Some(cwd) => cwd.clone(),
        None => setting_or(environment, current),
    }
}

/// The command line, behind the node executable, of a headless task.
pub open spec fn task_arguments(
    runtime: Seq<char>,
    prompt: Seq<char>,
    mode: Option<Seq<char>>,
    cwd: Seq<char>,
    session_id: Option<Seq<char>>,
    max_turns: Option<u32>,
) -> Seq<Seq<char>> {
    let base = seq![
        runtime,
        "--prompt"@,
        prompt,
        "--json"@,
        "--mode"@,
        text_or(mode, "yolo"@),
        "--cwd"@,
        cwd,
    ];
    let resumed = match session_id {
        Some(session_id) => base + seq!["--resume"@, session_id],
        None => base,
    };
    match max_turns {
        Some(turns) => resumed + seq!["--max-turns"@, text::decimal_text(turns as nat)],
        None => resumed,
    }
}

fn push_text(texts: &mut Vec<String>, text: String)
    ensures
        final(texts).deep_view() == old(texts).deep_view().push(text@),
{
    let ghost before = texts.deep_view();
    texts.push(text);
    assert(texts.deep_view() =~= before.push(text@));
}

/// The command line, behind the node executable, of a headless task.
pub fn prompt_arguments(args: &ZCodePromptArgs, runtime: &str, cwd: &str) -> (arguments: Vec<
    String,
>)
    ensures
        arguments.deep_view() == task_arguments(
            runtime@,
            args.prompt@,
            args.mode.deep_view(),
            cwd@,
            args.session_id.deep_view(),
            args.max_turns,
        ),
{
    let mut arguments: Vec<String> = Vec::new();
    assert(arguments.deep_view() =~= Seq::<Seq<char>>::empty());
    push_text(&mut arguments, runtime.to_owned());
    push_text(&mut arguments, "--prompt".to_owned());
    push_text(&mut arguments, args.prompt.clone());
    push_text(&mut arguments, "--json".to_owned());
    push_text(&mut arguments, "--mode".to_owned());
    let mode = match &args.mode {
        Some(mode) => mode.clone(),
        None => "yolo".to_owned(),
    };
    push_text(&mut arguments, mode);
    push_text(&mut arguments, "--cwd".to_owned());
    push_text(&mut arguments, cwd.to_owned());
    if let Some(session_id) = &args.session_id {
        push_text(&mut arguments, "--resume".to_owned());
        push_text(&mut arguments, session_id.clone());
    }
    if let Some(turns) = args.max_turns {
        push_text(&mut arguments, "--max-turns".to_owned());
        push_text(&mut arguments, text::decimal(turns as u64));
    }
    assert(arguments.deep_view() =~= task_arguments(
        runtime@,
        args.prompt@,
        args.mode.deep_view(),
        cwd@,
        args.session_id.deep_view(),
        args.max_turns,
    ));
    arguments
}

/// What `String::from_utf8_lossy` makes of bytes.
pub uninterp spec fn lossy_text(bytes: Seq<u8>) -> Seq<char>;

/// Calls `String::from_utf8_lossy`. The text depends on the bytes alone; bytes
/// that are UTF-8 are taken as the text they encode.
#[verifier::external_body]
fn decode_lossy(bytes: &[u8]) -> (text: String)
    ensures
        text@ == lossy_text(bytes@),
        vstd::utf8::valid_utf8(bytes@) ==> text@ == vstd::utf8::decode_utf8(bytes@),
{
    String::from_utf8_lossy(bytes).into_owned()
}

/// How the run of a headless task ended.
#[derive(Debug)]
pub enum PromptRun {
    /// It did not end in time.
    TimedOut,
    /// It could not be launched; the text says why.
    LaunchFailed(String),
    /// It exited.
    Exited { success: bool, status: String, stdout: Vec<u8>, stderr: Vec<u8> },
}

/// A tool call that failed in a way that the model is told.
pub open spec fn told(message: Seq<char>) -> FunctionCallErrorModel {
    FunctionCallErrorModel::RespondToModel(message)
}

/// What the model gets of the result of a headless task: its session, its
/// response and its usage.
pub open spec fn task_output(result: JsonModel) -> Result<JsonModel, FunctionCallErrorModel> {
    match result.str_at("sessionId"@) {
        Some(session_id) => Ok(
            json::object_model().with("sessionId"@, JsonModel::Str(session_id)).with(
                "response"@,
                JsonModel::Str(text_or(result.str_at("response"@), Seq::empty())),
            ).with(
                "usage"@,
                match result.get("usage"@) {
                    Some(usage) => usage,
                    None => JsonModel::Null,
                },
            ),
        ),
        None => Err(told("ZCode output is missing sessionId"@)),
    }
}

/// A result or a failed tool call, over models.
pub open spec fn output_model(output: Result<Json, FunctionCallError>) -> Result<
    JsonModel,
    FunctionCallErrorModel,
> {
    match output {
        Ok(value) => Ok(value@),
        Err(error) => Err(error.deep_view()),
    }
}

/// A text or a failed tool call, over models.
pub open spec fn reply_model(reply: Result<String, FunctionCallError>) -> Result<
    Seq<char>,
    FunctionCallErrorModel,
> {
    match reply {
        Ok(text) => Ok(text@),
        Err(error) => Err(error.deep_view()),
    }
}

/// What the model gets of the result of a headless task.
pub fn prompt_output(result: &Json) -> (output: Result<Json, FunctionCallError>)
    ensures
        output_model(output) == task_output(result@),
{
    match result.str_at("sessionId") {
        Some(session_id) => {
            let response = match result.str_at("response") {
                Some(response) => Json::text(response),
                None => Json::Str(String::new()),
            };
            let usage = match result.get("usage") {
                Some(usage) => usage.clone(),
                None => Json::Null,
            };
            Ok(
                Json::object().with("sessionId", Json::text(session_id)).with(
                    "response",
                    response,
                ).with("usage", usage),
            )
        },
        None => Err(
            FunctionCallError::RespondToModel("ZCode output is missing sessionId".to_owned()),
        ),
    }
}

/// What the model gets of the run of a headless task.
pub open spec fn task_reply(run: PromptRun) -> Result<Seq<char>, FunctionCallErrorModel> {
    match run {
        PromptRun::TimedOut => Err(told("ZCode timed out after 20 minutes"@)),
        PromptRun::LaunchFailed(error) => Err(told("could not launch ZCode: "@ + error@)),
        PromptRun::Exited { success, status, stdout, stderr } => if !success {
            Err(told("ZCode failed ("@ + status@ + "): "@ + lossy_text(stderr@)))
        } else {
            match json::read_bytes(stdout@) {
                Ok(result) => match task_output(result) {
                    Ok(output) => Ok(json::pretty_text(output)),
                    Err(error) => Err(error),
                },
                Err(error) => Err(
                    told("invalid ZCode JSON output: "@ + error + "; "@ + lossy_text(stdout@)),
                ),
            }
        },
    }
}

/// What the model gets of the run of a headless task.
pub fn prompt_reply(run: &PromptRun) -> (reply: Result<String, FunctionCallError>)
    ensures
        reply_model(reply) == task_reply(*run),
{
    match run {
        PromptRun::TimedOut => Err(
            FunctionCallError::RespondToModel("ZCode timed out after 20 minutes".to_owned()),
        ),
        PromptRun::LaunchFailed(error) => Err(
            FunctionCallError::RespondToModel(
                "could not launch ZCode: ".to_owned().concat(error.as_str()),
            ),
        ),
        PromptRun::Exited { success, status, stdout, stderr } => {
            if !*success {
                return Err(
                    FunctionCallError::RespondToModel(
                        "ZCode failed (".to_owned().concat(status.as_str()).concat("): ").concat(
                            decode_lossy(stderr.as_slice()).as_str(),
                        ),
                    ),
                );
            }
            match Json::read_slice(stdout.as_slice()) {
                Ok(result) => match prompt_output(&result) {
                    Ok(output) => Ok(output.render_pretty()),
                    Err(error) => Err(error),
                },
                Err(error) => Err(
                    FunctionCallError::RespondToModel(
                        "invalid ZCode JSON output: ".to_owned().concat(error.as_str()).concat(
                            "; ",
                        ).concat(decode_lossy(stdout.as_slice()).as_str()),
                    ),
                ),
            }
        },
    }
}

/// The body of a search request.
pub open spec fn search_body_model(query: Seq<char>, count: u32) -> JsonModel {
    json::object_model().with("model"@, JsonModel::Str("glm-5-turbo"@)).with(
        "input"@,
        JsonModel::Str(
            "Search the web for: "@ + query
                + ". Return only the results as a JSON array of objects with title, url, and snippet fields. Limit to "@
                + text::decimal_text(count as nat) + " results."@,
        ),
    ).with(
        "tools"@,
        JsonModel::Array(
            seq![
                json::object_model().with("type"@, JsonModel::Str("web_search"@)).with(
                    "web_search"@,
                    json::object_model().with("enable"@, JsonModel::Bool(true)).with(
                        "search_engine"@,
                        JsonModel::Str("search-prime"@),
                    ),
                ),
            ],
        ),
    ).with("stream"@, JsonModel::Bool(false)).with("max_output_tokens"@, JsonModel::Int(2048))
}

/// The body of a search request.
pub fn search_body(args: &ZaiSearchArgs) -> (body: Json)
    ensures
        body@ == search_body_model(
            args.query@,
            match args.count {
                Some(count) => count,
                None => DEFAULT_SEARCH_COUNT,
            },
        ),
{
    let count: u32 = match args.count {
        Some(count) => count,
        None => DEFAULT_SEARCH_COUNT,
    };
    let input = "Search the web for: ".to_owned().concat(args.query.as_str()).concat(
        ". Return only the results as a JSON array of objects with title, url, and snippet fields. Limit to ",
    ).concat(text::decimal(count as u64).as_str()).concat(" results.");
    let mut tools: Vec<Json> = Vec::new();
    push_item(
        &mut tools,
        Json::object().with("type", Json::text("web_search")).with(
            "web_search",
            Json::object().with("enable", Json::Bool(true)).with(
                "search_engine",
                Json::text("search-prime"),
            ),
        ),
    );
    Json::object().with("model", Json::text("glm-5-turbo")).with("input", Json::Str(input)).with(
        "tools",
        Json::Array(tools),
    ).with("stream", Json::Bool(false)).with("max_output_tokens", Json::PosInt(2048))
}

/// The string that `value` holds for the first of `keys` it holds one for.
pub open spec fn first_string(value: JsonModel, keys: Seq<Seq<char>>) -> Seq<char>
    decreases keys.len(),
{
    if keys.len() == 0 {
        Seq::empty()
    } else {
        match value.str_at(keys[0]) {
            Some(text) => text,
            None => first_string(value, keys.subrange(1, keys.len() as int)),
        }
    }
}

/// The string that `value` holds for the first of `keys` it holds one for, or
/// the empty string.
pub fn string_field(value: &Json, keys: &[&str]) -> (text: String)
    ensures
        text@ == first_string(value@, keys.deep_view()),
{
    let ghost all = keys.deep_view();
    let mut i: usize = 0;
    assert(all.subrange(0, all.len() as int) =~= all);
    while i < keys.len()
        invariant
            i <= keys@.len(),
            all == keys.deep_view(),
            first_string(value@, all) == first_string(
                value@,
                all.subrange(i as int, all.len() as int),
            ),
        decreases keys@.len() - i,
    {
        let ghost rest = all.subrange(i as int, all.len() as int);
        assert(rest[0] == keys@[i as int]@);
        assert(rest.subrange(1, rest.len() as int) =~= all.subrange(i + 1, all.len() as int));
        if let Some(text) = value.str_at(keys[i]) {
            return text.to_owned();
        }
        i = i + 1;
    }
    String::new()
}

/// An object with `key` set to a text that says something.
pub open spec fn with_text(object: JsonModel, key: Seq<char>, text: Seq<char>) -> JsonModel {
    if text.len() == 0 {
        object
    } else {
        object.with(key, JsonModel::Str(text))
    }
}

fn set_text(object: Json, key: &str, text: String) -> (changed: Json)
    ensures
        changed@ == with_text(object@, key@, text@),
{
    if text.as_str().is_empty() {
        object
    } else {
        object.with(key, Json::Str(text))
    }
}

/// A search result in one shape, or nothing where it has none of the fields.
pub open spec fn result_item(result: JsonModel) -> Option<JsonModel> {
    let title = first_string(result, seq!["title"@, "name"@]);
    let url = first_string(result, seq!["url"@, "link"@, "web_url"@]);
    let snippet = first_string(
        result,
        seq!["content"@, "snippet"@, "summary"@, "description"@],
    );
    if title.len() == 0 && url.len() == 0 && snippet.len() == 0 {
        None
    } else {
        Some(
            with_text(
                with_text(with_text(json::object_model(), "title"@, title), "url"@, url),
                "snippet"@,
                snippet,
            ),
        )
    }
}

fn normalize_result(result: &Json) -> (item: Option<Json>)
    ensures
        item.deep_view() == result_item(result@),
{
    let title_keys: [&str; 2] = ["title", "name"];
    let url_keys: [&str; 3] = ["url", "link", "web_url"];
    let snippet_keys: [&str; 4] = ["content", "snippet", "summary", "description"];
    let title = string_field(result, &title_keys);
    let url = string_field(result, &url_keys);
    let snippet = string_field(result, &snippet_keys);
    proof {
        assert(title_keys.deep_view() =~= seq!["title"@, "name"@]);
        assert(url_keys.deep_view() =~= seq!["url"@, "link"@, "web_url"@]);
        assert(snippet_keys.deep_view() =~= seq![
            "content"@,
            "snippet"@,
            "summary"@,
            "description"@,
        ]);
    }
    if title.as_str().is_empty() && url.as_str().is_empty() && snippet.as_str().is_empty() {
        return None;
    }
    Some(
        set_text(
            set_text(set_text(Json::object(), "title", title), "url", url),
            "snippet",
            snippet,
        ),
    )
}

/// The search results that say something, in one shape.
pub open spec fn result_items(results: Seq<JsonModel>) -> Seq<JsonModel>
    decreases results.len(),
{
    if results.len() == 0 {
        Seq::empty()
    } else {
        match result_item(results.last()) {
            Some(item) => result_items(results.drop_last()).push(item),
            None => result_items(results.drop_last()),
        }
    }
}

/// Whether a normalized result holds texts that say something, at least one
/// of them, and nothing but its title, address and snippet.
pub open spec fn tells(item: JsonModel) -> bool {
    &&& item is Object
    &&& item.get("title"@) is Some || item.get("url"@) is Some || item.get("snippet"@) is Some
    &&& forall|key: Seq<char>| #[trigger]
        item.get(key) matches Some(value) ==> {
            &&& key == "title"@ || key == "url"@ || key == "snippet"@
            &&& value is Str
            &&& value->Str_0.len() > 0
        }
}

/// Normalizing makes up no results, and each one it keeps tells something.
pub proof fn law_normalized_results_tell_something(results: Seq<JsonModel>)
    ensures
        result_items(results).len() <= results.len(),
        forall|i: int|
            0 <= i < result_items(results).len() ==> tells(#[trigger] result_items(results)[i]),
    decreases results.len(),
{
    if results.len() > 0 {
        law_normalized_results_tell_something(results.drop_last());
        reveal_strlit("title");
        reveal_strlit("url");
        reveal_strlit("snippet");
        assert("title"@.len() == 5 && "url"@.len() == 3 && "snippet"@.len() == 7);
        if let Some(item) = result_item(results.last()) {
            assert(tells(item));
        }
    }
}

/// Where a response holds its list of results: the first place that holds
/// anything counts.
pub open spec fn results_place(response: JsonModel) -> Option<JsonModel> {
    let data = response.get("data"@);
    match response.get("search_result"@) {
        Some(value) => Some(value),
        None => match json::get_in(data, "search_result"@) {
            Some(value) => Some(value),
            None => match json::get_in(data, "search_results"@) {
                Some(value) => Some(value),
                None => response.get("results"@),
            },
        },
    }
}

/// The results that a response lists outside the model's text.
pub open spec fn listed_results(response: JsonModel) -> Seq<JsonModel> {
    match results_place(response) {
        Some(JsonModel::Array(results)) => results,
        _ => Seq::empty(),
    }
}

/// The text that the model wrote, in a response.
pub open spec fn model_text(response: JsonModel) -> Seq<char> {
    let item = match response.get("output"@) {
        Some(output) => output.first(),
        None => None,
    };
    let part = match json::get_in(item, "content"@) {
        Some(content) => content.first(),
        None => None,
    };
    text_or(json::str_in(part, "text"@), Seq::empty())
}

/// Whether what the model wrote is a list of results, or holds one.
pub open spec fn holds_results(parsed: JsonModel) -> bool {
    parsed is Array || parsed.get("results"@) is Some
}

/// The normalized results of a response, given what its model text reads as.
pub open spec fn results_given(
    response: JsonModel,
    parsed: Result<JsonModel, Seq<char>>,
) -> JsonModel {
    let listed = json::object_model().with("engine"@, JsonModel::Str("search-prime"@)).with(
        "results"@,
        JsonModel::Array(result_items(listed_results(response))),
    );
    match parsed {
        Ok(parsed) => if holds_results(parsed) {
            json::object_model().with("engine"@, JsonModel::Str("zai-web"@)).with(
                "results"@,
                parsed,
            )
        } else {
            listed
        },
        Err(_) => listed,
    }
}

/// The normalized results of a response: those that the model wrote as JSON,
/// else those that the response lists elsewhere, in one shape.
pub fn search_results(response: &Json, parsed: Result<Json, String>) -> (results: Json)
    ensures
        results@ == results_given(response@, json::read_model(parsed)),
{
    if let Ok(parsed) = parsed {
        if parsed.as_array().is_some() || parsed.get("results").is_some() {
            return Json::object().with("engine", Json::text("zai-web")).with("results", parsed);
        }
    }
    let data = response.get("data");
    let place = match response.get("search_result") {
        Some(value) => Some(value),
        None => match json_at(data, "search_result") {
            Some(value) => Some(value),
            None => match json_at(data, "search_results") {
                Some(value) => Some(value),
                None => response.get("results"),
            },
        },
    };
    let mut items: Vec<Json> = Vec::new();
    assert(json::models(items@) =~= result_items(Seq::empty()));
    if let Some(value) = place {
        if let Some(listed) = value.as_array() {
            let ghost all = listed.deep_view();
            let mut i: usize = 0;
            assert(all.take(0) =~= Seq::empty());
            while i < listed.len()
                invariant
                    i <= listed@.len(),
                    all == listed.deep_view(),
                    json::models(items@) == result_items(all.take(i as int)),
                decreases listed@.len() - i,
            {
                assert(all.take(i + 1).drop_last() =~= all.take(i as int));
                assert(all.take(i + 1).last() == listed@[i as int]@);
                if let Some(item) = normalize_result(&listed[i]) {
                    push_item(&mut items, item);
                }
                i = i + 1;
            }
            assert(all.take(all.len() as int) =~= all);
        }
    }
    Json::object().with("engine", Json::text("search-prime")).with("results", Json::Array(items))
}

/// The normalized results of a response.
pub open spec fn normalized(response: JsonModel) -> JsonModel {
    results_given(response, json::read_text(text::trimmed(model_text(response))))
}

fn text_of_model(response: &Json) -> (text: &str)
    ensures
        text@ == model_text(response@),
{
    proof {
        reveal_strlit("");
    }
    let item = match response.get("output") {
        Some(output) => output.first(),
        None => None,
    };
    let part = match json_at(item, "content") {
        Some(content) => content.first(),
        None => None,
    };
    match text_at(part, "text") {
        Some(text) => text,
        None => "",
    }
}

/// The normalized results of a response: reads what its model text holds and
/// goes on with [`search_results`].
pub fn normalize_search_results(response: &Json) -> (results: Json)
    ensures
        results@ == normalized(response@),
{
    let parsed = Json::read(text::trim(text_of_model(response)));
    search_results(response, parsed)
}

/// What the model gets of an answered search request.
pub open spec fn search_reply_model(success: bool, status: Seq<char>, body: Seq<char>) -> Result<
    Seq<char>,
    FunctionCallErrorModel,
> {
    if !success {
        Err(told("Z.AI search failed ("@ + status + "): "@ + body))
    } else {
        match json::read_text(body) {
            Ok(response) => Ok(json::pretty_text(normalized(response))),
            Err(error) => Err(FunctionCallErrorModel::Fatal(error)),
        }
    }
}

/// What the model gets of an answered search request.
pub fn search_reply(success: bool, status: &str, body: &str) -> (reply: Result<
    String,
    FunctionCallError,
>)
    ensures
        reply_model(reply) == search_reply_model(success, status@, body@),
{
    if !success {
        return Err(
            FunctionCallError::RespondToModel(
                "Z.AI search failed (".to_owned().concat(status).concat("): ").concat(body),
            ),
        );
    }
    match Json::read(body) {
        Ok(response) => Ok(normalize_search_results(&response).render_pretty()),
        Err(error) => Err(FunctionCallError::Fatal(error)),
    }
}

/// What a tool parameter takes.
#[derive(Debug)]
pub enum ParameterKind {
    Text,
    Integer,
    /// One of these texts.
    OneOf(Vec<&'static str>),
}

/// What a tool parameter takes, over models.
pub enum ParameterKindModel {
    Text,
    Integer,
    OneOf(Seq<Seq<char>>),
}

impl DeepView for ParameterKind {
    type V = ParameterKindModel;

    open spec fn deep_view(&self) -> ParameterKindModel {
        match self {
            ParameterKind::Text => ParameterKindModel::Text,
            ParameterKind::Integer => ParameterKindModel::Integer,
            ParameterKind::OneOf(choices) => ParameterKindModel::OneOf(choices.deep_view()),
        }
    }
}

/// One parameter of a tool.
#[derive(Debug)]
pub struct ToolParameter {
    pub name: &'static str,
    pub description: &'static str,
    pub kind: ParameterKind,
    pub required: bool,
}

/// One parameter of a tool, over models.
pub struct ToolParameterModel {
    pub name: Seq<char>,
    pub description: Seq<char>,
    pub kind: ParameterKindModel,
    pub required: bool,
}

impl DeepView for ToolParameter {
    type V = ToolParameterModel;

    open spec fn deep_view(&self) -> ToolParameterModel {
        ToolParameterModel {
            name: self.name@,
            description: self.description@,
            kind: self.kind.deep_view(),
            required: self.required,
        }
    }
}

/// How a tool is offered to the model. A tool takes no parameters beyond those
/// listed.
#[derive(Debug)]
pub struct ToolDefinition {
    pub name: &'static str,
    pub description: &'static str,
    pub parameters: Vec<ToolParameter>,
    /// Whether calls of the tool may run side by side.
    pub parallel: bool,
}

/// A parameter without which a tool cannot be called.
pub open spec fn required_text(name: Seq<char>, description: Seq<char>) -> ToolParameterModel {
    ToolParameterModel { name, description, kind: ParameterKindModel::Text, required: true }
}

/// A parameter that may be left out.
pub open spec fn optional_of(
    name: Seq<char>,
    description: Seq<char>,
    kind: ParameterKindModel,
) -> ToolParameterModel {
    ToolParameterModel { name, description, kind, required: false }
}

/// How the `zcode_prompt` tool is offered.
pub fn prompt_tool_definition() -> (tool: ToolDefinition)
    ensures
        tool.name@ == "zcode_prompt"@,
        tool.description@
            == "Run one independent ZCode task. Pass a prior sessionId only when explicitly continuing that ZCode conversation."@,
        !tool.parallel,
        tool.parameters.deep_view() == seq![
            required_text("prompt"@, "Task or question for ZCode"@),
            optional_of(
                "session_id"@,
                "Existing ZCode sessionId to resume"@,
                ParameterKindModel::Text,
            ),
            optional_of(
                "cwd"@,
                "Absolute working directory; defaults to the active Codex workspace"@,
                ParameterKindModel::Text,
            ),
            optional_of(
                "mode"@,
                "ZCode permission mode"@,
                ParameterKindModel::OneOf(seq!["build"@, "edit"@, "plan"@, "yolo"@]),
            ),
            optional_of("max_turns"@, "Maximum model turns"@, ParameterKindModel::Integer),
        ],
{
    let modes: Vec<&'static str> = vec!["build", "edit", "plan", "yolo"];
    assert(modes.deep_view() =~= seq!["build"@, "edit"@, "plan"@, "yolo"@]);
    let parameters: Vec<ToolParameter> = vec![
        ToolParameter {
            name: "prompt",
            description: "Task or question for ZCode",
            kind: ParameterKind::Text,
            required: true,
        },
        ToolParameter {
            name: "session_id",
            description: "Existing ZCode sessionId to resume",
            kind: ParameterKind::Text,
            required: false,
        },
        ToolParameter {
            name: "cwd",
            description: "Absolute working directory; defaults to the active Codex workspace",
            kind: ParameterKind::Text,
            required: false,
        },
        ToolParameter {
            name: "mode",
            description: "ZCode permission mode",
            kind: ParameterKind::OneOf(modes),
            required: false,
        },
        ToolParameter {
            name: "max_turns",
            description: "Maximum model turns",
            kind: ParameterKind::Integer,
            required: false,
        },
    ];
    let tool = ToolDefinition {
        name: "zcode_prompt",
        description:
            "Run one independent ZCode task. Pass a prior sessionId only when explicitly continuing that ZCode conversation.",
        parameters,
        parallel: false,
    };
    assert(tool.parameters.deep_view() =~= seq![
        required_text("prompt"@, "Task or question for ZCode"@),
        optional_of("session_id"@, "Existing ZCode sessionId to resume"@, ParameterKindModel::Text),
        optional_of(
            "cwd"@,
            "Absolute working directory; defaults to the active Codex workspace"@,
            ParameterKindModel::Text,
        ),
        optional_of(
            "mode"@,
            "ZCode permission mode"@,
            ParameterKindModel::OneOf(seq!["build"@, "edit"@, "plan"@, "yolo"@]),
        ),
        optional_of("max_turns"@, "Maximum model turns"@, ParameterKindModel::Integer),
    ]);
    tool
}

/// How the `zai_search` tool is offered.
pub fn search_tool_definition() -> (tool: ToolDefinition)
    ensures
        tool.name@ == "zai_search"@,
        tool.description@
            == "Search the web using Z.AI Search Prime. Use for current facts, releases, documentation, and URLs."@,
        tool.parallel,
        tool.parameters.deep_view() == seq![
            required_text("query"@, "Search query"@),
            optional_of("count"@, "Maximum results to return"@, ParameterKindModel::Integer),
        ],
{
    let parameters: Vec<ToolParameter> = vec![
        ToolParameter {
            name: "query",
            description: "Search query",
            kind: ParameterKind::Text,
            required: true,
        },
        ToolParameter {
            name: "count",
            description: "Maximum results to return",
            kind: ParameterKind::Integer,
            required: false,
        },
    ];
    let tool = ToolDefinition {
        name: "zai_search",
        description:
            "Search the web using Z.AI Search Prime. Use for current facts, releases, documentation, and URLs.",
        parameters,
        parallel: true,
    };
    assert(tool.parameters.deep_view() =~= seq![
        required_text("query"@, "Search query"@),
        optional_of("count"@, "Maximum results to return"@, ParameterKindModel::Integer),
    ]);
    tool
}

/// Whether the first of `keys` for which `value` holds a string holds `text`,
/// and `text` says something.
pub open spec fn names_text(value: JsonModel, keys: Seq<Seq<char>>, text: Seq<char>) -> bool {
    &&& text.len() > 0
    &&& exists|i: int|
        {
            &&& 0 <= i < keys.len()
            &&& json::has_member(value, #[trigger] keys[i], JsonModel::Str(text))
            &&& forall|j: int| 0 <= j < i ==> value.str_at(#[trigger] keys[j]) is None
        }
}

proof fn lemma_first_string(value: JsonModel, keys: Seq<Seq<char>>, text: Seq<char>)
    requires
        text.len() > 0,
    ensures
        first_string(value, keys) == text <==> names_text(value, keys, text),
    decreases keys.len(),
{
    if keys.len() > 0 {
        let rest = keys.subrange(1, keys.len() as int);
        lemma_first_string(value, rest, text);
        if value.str_at(keys[0]) is Some {
            if first_string(value, keys) == text {
                assert(json::has_member(value, keys[0], JsonModel::Str(text)));
            }
            if names_text(value, keys, text) {
                let i = choose|i: int|
                    {
                        &&& 0 <= i < keys.len()
                        &&& json::has_member(value, #[trigger] keys[i], JsonModel::Str(text))
                        &&& forall|j: int| 0 <= j < i ==> value.str_at(#[trigger] keys[j]) is None
                    };
                if i > 0 {
                    assert(value.str_at(keys[0]) is None);
                }
            }
        } else {
            if names_text(value, rest, text) {
                let i = choose|i: int|
                    {
                        &&& 0 <= i < rest.len()
                        &&& json::has_member(value, #[trigger] rest[i], JsonModel::Str(text))
                        &&& forall|j: int| 0 <= j < i ==> value.str_at(#[trigger] rest[j]) is None
                    };
                assert(rest[i] == keys[i + 1]);
                assert forall|j: int| 0 <= j < i + 1 implies value.str_at(
                    #[trigger] keys[j],
                ) is None by {
                    if j > 0 {
                        assert(keys[j] == rest[j - 1]);
                    }
                }
                assert(names_text(value, keys, text));
            }
            if names_text(value, keys, text) {
                let i = choose|i: int|
                    {
                        &&& 0 <= i < keys.len()
                        &&& json::has_member(value, #[trigger] keys[i], JsonModel::Str(text))
                        &&& forall|j: int| 0 <= j < i ==> value.str_at(#[trigger] keys[j]) is None
                    };
                assert(i > 0);
                assert(rest[i - 1] == keys[i]);
                assert forall|j: int| 0 <= j < i - 1 implies value.str_at(
                    #[trigger] rest[j],
                ) is None by {
                    assert(rest[j] == keys[j + 1]);
                }
                assert(names_text(value, rest, text));
            }
        }
    }
}

/// A field is read under the first of its names that holds a string; where none
/// does, it is empty.
pub proof fn law_the_first_name_with_a_string_counts(
    value: JsonModel,
    keys: Seq<Seq<char>>,
    text: Seq<char>,
)
    ensures
        text.len() > 0 ==> (first_string(value, keys) == text <==> names_text(value, keys, text)),
        (forall|i: int| 0 <= i < keys.len() ==> value.str_at(#[trigger] keys[i]) is None)
            ==> first_string(value, keys).len() == 0,
{
    if text.len() > 0 {
        lemma_first_string(value, keys, text);
    }
    if forall|i: int| 0 <= i < keys.len() ==> value.str_at(#[trigger] keys[i]) is None {
        let found = first_string(value, keys);
        if found.len() > 0 {
            lemma_first_string(value, keys, found);
        }
    }
}

/// A search result loses none of its fields: its normalized form holds the
/// title, the address and the snippet, each character for character, exactly
/// where the result holds one that is not empty, under the first of the names
/// it may have. Nothing is made of a result only where it has none of them.
pub proof fn law_a_result_keeps_its_fields(result: JsonModel, text: Seq<char>)
    ensures
        ({
            let item = result_item(result);
            let said = JsonModel::Str(text);
            &&& names_text(result, seq!["title"@, "name"@], text) <==> item is Some
                && json::has_member(item->0, "title"@, said)
            &&& names_text(result, seq!["url"@, "link"@, "web_url"@], text) <==> item is Some
                && json::has_member(item->0, "url"@, said)
            &&& names_text(
                result,
                seq!["content"@, "snippet"@, "summary"@, "description"@],
                text,
            ) <==> item is Some && json::has_member(item->0, "snippet"@, said)
        }),
{
    reveal_strlit("title");
    reveal_strlit("url");
    reveal_strlit("snippet");
    assert("title"@.len() == 5 && "url"@.len() == 3 && "snippet"@.len() == 7);
    let titles = seq!["title"@, "name"@];
    let urls = seq!["url"@, "link"@, "web_url"@];
    let snippets = seq!["content"@, "snippet"@, "summary"@, "description"@];
    if text.len() > 0 {
        lemma_first_string(result, titles, text);
        lemma_first_string(result, urls, text);
        lemma_first_string(result, snippets, text);
    }
}

/// The first name of each field comes before its others: a string under `title`,
/// `url` or `content` is the one that is kept.
pub proof fn law_a_result_is_known_by_its_own_names(result: JsonModel, text: Seq<char>)
    requires
        text.len() > 0,
    ensures
        ({
            let item = result_item(result);
            let said = JsonModel::Str(text);
            &&& json::has_member(result, "title"@, said) ==> item is Some && json::has_member(
                item->0,
                "title"@,
                said,
            )
            &&& json::has_member(result, "url"@, said) ==> item is Some && json::has_member(
                item->0,
                "url"@,
                said,
            )
            &&& json::has_member(result, "content"@, said) ==> item is Some && json::has_member(
                item->0,
                "snippet"@,
                said,
            )
        }),
{
    law_a_result_keeps_its_fields(result, text);
    let titles = seq!["title"@, "name"@];
    let urls = seq!["url"@, "link"@, "web_url"@];
    let snippets = seq!["content"@, "snippet"@, "summary"@, "description"@];
    assert(titles[0] == "title"@ && urls[0] == "url"@ && snippets[0] == "content"@);
}

/// Results are normalized one by one, in order: one item for each result that
/// tells something, none for one that does not.
pub proof fn law_results_are_normalized_one_by_one(
    before: Seq<JsonModel>,
    result: JsonModel,
    after: Seq<JsonModel>,
)
    ensures
        result_items(Seq::empty()) == Seq::<JsonModel>::empty(),
        match result_item(result) {
            Some(item) => result_items(before.push(result) + after) == result_items(before).push(
                item,
            ) + result_items(after),
            None => result_items(before.push(result) + after) == result_items(before)
                + result_items(after),
        },
    decreases after.len(),
{
    let all = before.push(result) + after;
    if after.len() == 0 {
        assert(all =~= before.push(result));
        assert(all.drop_last() =~= before);
    } else {
        law_results_are_normalized_one_by_one(before, result, after.drop_last());
        assert(all.drop_last() =~= before.push(result) + after.drop_last());
        assert(all.last() == after.last());
    }
    match result_item(result) {
        Some(item) => {
            assert(result_items(all) =~= result_items(before).push(item) + result_items(after));
        },
        None => {
            assert(result_items(all) =~= result_items(before) + result_items(after));
        },
    }
}

/// The list of results is the one under `search_result`, else under
/// `data.search_result`, else under `data.search_results`, else under
/// `results`: the first of these that is there counts, and is the list only if
/// it is one.
pub proof fn law_results_are_taken_from_the_first_place(response: JsonModel, place: JsonModel)
    ensures
        ({
            let data = response.get("data"@);
            let listed = match place {
                JsonModel::Array(results) => results,
                _ => Seq::empty(),
            };
            let first = response.get("search_result"@);
            let second = json::get_in(data, "search_result"@);
            let third = json::get_in(data, "search_results"@);
            let fourth = response.get("results"@);
            &&& first == Some(place) ==> listed_results(response) == listed
            &&& first is None && second == Some(place) ==> listed_results(response) == listed
            &&& first is None && second is None && third == Some(place) ==> listed_results(response)
                == listed
            &&& first is None && second is None && third is None && fourth == Some(place)
                ==> listed_results(response) == listed
            &&& first is None && second is None && third is None && fourth is None
                ==> listed_results(response) == Seq::<JsonModel>::empty()
        }),
{
}

/// What the model wrote is the text of the first part of the first output, as
/// it is; where there is none, it wrote nothing.
pub proof fn law_the_model_text_is_that_of_the_first_part(
    response: JsonModel,
    outputs: Seq<JsonModel>,
    parts: Seq<JsonModel>,
    text: Seq<char>,
)
    requires
        json::has_member(response, "output"@, JsonModel::Array(outputs)),
    ensures
        outputs.len() > 0 && json::has_member(outputs[0], "content"@, JsonModel::Array(parts))
            && parts.len() > 0 && json::has_member(parts[0], "text"@, JsonModel::Str(text))
            ==> model_text(response) == text,
        outputs.len() == 0 ==> model_text(response).len() == 0,
        outputs.len() > 0 && outputs[0].get("content"@) is None ==> model_text(response).len() == 0,
        outputs.len() > 0 && json::has_member(outputs[0], "content"@, JsonModel::Array(parts)) && (
        parts.len() == 0 || parts[0].str_at("text"@) is None) ==> model_text(response).len() == 0,
{
}

/// Results that the model wrote as JSON, a list or an object that holds one, are
/// handed on as they are; otherwise the listed ones are, normalized. The engine
/// says which, and nothing else is handed on.
pub proof fn law_written_results_come_first(
    response: JsonModel,
    parsed: Result<JsonModel, Seq<char>>,
    key: Seq<char>,
    inner: JsonModel,
)
    ensures
        ({
            let results = results_given(response, parsed);
            let written = parsed is Ok && (parsed->Ok_0 is Array || parsed->Ok_0.get(
                "results"@,
            ) is Some);
            &&& written ==> (json::has_member(results, key, inner) <==> {
                ||| key == "engine"@ && inner == JsonModel::Str("zai-web"@)
                ||| key == "results"@ && inner == parsed->Ok_0
            })
            &&& !written ==> (json::has_member(results, key, inner) <==> {
                ||| key == "engine"@ && inner == JsonModel::Str("search-prime"@)
                ||| key == "results"@ && inner == JsonModel::Array(
                    result_items(listed_results(response)),
                )
            })
        }),
{
    reveal_strlit("engine");
    reveal_strlit("results");
    assert("engine"@.len() != "results"@.len());
}

/// What the model wrote is read as JSON without the white space around it.
pub proof fn law_the_model_text_is_read_trimmed(
    response: JsonModel,
    before: Seq<char>,
    written: Seq<char>,
    after: Seq<char>,
)
    requires
        model_text(response) == before + written + after,
        forall|i: int| 0 <= i < before.len() ==> text::white_space(#[trigger] before[i]),
        forall|i: int| 0 <= i < after.len() ==> text::white_space(#[trigger] after[i]),
        written.len() > 0 ==> !text::white_space(written[0]) && !text::white_space(written.last()),
    ensures
        normalized(response) == results_given(response, json::read_text(written)),
{
    text::law_trimming_keeps_what_is_between(before, written, after);
}

/// A search that was refused is told with its status and its body; one whose
/// answer is no JSON is fatal, with the reader's words; any other is answered
/// with its normalized results.
pub proof fn law_a_search_is_answered_by_its_results(
    status: Seq<char>,
    body: Seq<char>,
    response: JsonModel,
    error: Seq<char>,
)
    ensures
        search_reply_model(false, status, body) == Err::<Seq<char>, FunctionCallErrorModel>(
            FunctionCallErrorModel::RespondToModel(
                "Z.AI search failed ("@ + status + "): "@ + body,
            ),
        ),
        json::read_text(body) == Ok::<JsonModel, Seq<char>>(response) ==> search_reply_model(
            true,
            status,
            body,
        ) == Ok::<Seq<char>, FunctionCallErrorModel>(json::pretty_text(normalized(response))),
        json::read_text(body) == Err::<JsonModel, Seq<char>>(error) ==> search_reply_model(
            true,
            status,
            body,
        ) == Err::<Seq<char>, FunctionCallErrorModel>(FunctionCallErrorModel::Fatal(error)),
{
}

/// A search request names the query and how many results are wanted, and turns
/// the web search on.
pub proof fn law_a_search_asks_for_the_query(
    query: Seq<char>,
    count: u32,
    key: Seq<char>,
    inner: JsonModel,
)
    ensures
        json::has_member(search_body_model(query, count), key, inner) <==> {
            ||| key == "model"@ && inner == JsonModel::Str("glm-5-turbo"@)
            ||| key == "input"@ && inner == JsonModel::Str(
                "Search the web for: "@ + query
                    + ". Return only the results as a JSON array of objects with title, url, and snippet fields. Limit to "@
                    + text::decimal_text(count as nat) + " results."@,
            )
            ||| key == "tools"@ && inner == JsonModel::Array(
                seq![
                    json::object_model().with("type"@, JsonModel::Str("web_search"@)).with(
                        "web_search"@,
                        json::object_model().with("enable"@, JsonModel::Bool(true)).with(
                            "search_engine"@,
                            JsonModel::Str("search-prime"@),
                        ),
                    ),
                ],
            )
            ||| key == "stream"@ && inner == JsonModel::Bool(false)
            ||| key == "max_output_tokens"@ && inner == JsonModel::Int(2048)
        },
        DEFAULT_SEARCH_COUNT == 5,
        ZAI_SEARCH_TIMEOUT_SECS == 60,
        ZCODE_PROMPT_TIMEOUT_SECS == 20 * 60,
{
    reveal_strlit("model");
    reveal_strlit("input");
    reveal_strlit("tools");
    reveal_strlit("stream");
    reveal_strlit("max_output_tokens");
    assert("model"@[0] != "input"@[0]);
    assert("model"@[0] != "tools"@[0]);
    assert("input"@[0] != "tools"@[0]);
    assert("stream"@.len() == 6 && "max_output_tokens"@.len() == 17);
}

/// A task is run on its prompt in its directory, in the mode asked for or else
/// unattended, resumes a session exactly where one is named, and is bounded
/// exactly where a bound is given.
pub proof fn law_a_task_is_run_as_asked(
    runtime: Seq<char>,
    prompt: Seq<char>,
    mode: Option<Seq<char>>,
    cwd: Seq<char>,
    session_id: Option<Seq<char>>,
    max_turns: Option<u32>,
)
    ensures
        ({
            let arguments = task_arguments(runtime, prompt, mode, cwd, session_id, max_turns);
            let resumed: int = if session_id is Some { 2 } else { 0 };
            let bounded: int = if max_turns is Some { 2 } else { 0 };
            &&& arguments.len() == 8 + resumed + bounded
            &&& arguments[0] == runtime
            &&& arguments[1] == "--prompt"@ && arguments[2] == prompt
            &&& arguments[3] == "--json"@
            &&& arguments[4] == "--mode"@
            &&& mode is Some ==> arguments[5] == mode->0
            &&& mode is None ==> arguments[5] == "yolo"@
            &&& arguments[6] == "--cwd"@ && arguments[7] == cwd
            &&& session_id is Some ==> arguments[8] == "--resume"@ && arguments[9] == session_id->0
            &&& max_turns is Some ==> arguments[8 + resumed] == "--max-turns"@ && arguments[9
                + resumed] == text::decimal_text(max_turns->0 as nat)
        }),
{
}

/// A task runs in the directory asked for, else in that of the environment,
/// else in the current one. A setting that is given is taken as it is, and its
/// default only where it is not.
pub proof fn law_what_is_asked_for_comes_first(
    asked: Option<Seq<char>>,
    environment: Option<Seq<char>>,
    current: Seq<char>,
)
    ensures
        asked is Some ==> task_cwd(asked, environment, current) == asked->0,
        asked is None && environment is Some ==> task_cwd(asked, environment, current)
            == environment->0,
        asked is None && environment is None ==> task_cwd(asked, environment, current) == current,
        asked is Some ==> text_or(asked, current) == asked->0,
        asked is None ==> text_or(asked, current) == current,
{
}

/// The model gets the session, the response and the usage of a task, and
/// nothing else; a task that names no session is told as an error.
pub proof fn law_a_task_is_answered_with_its_session(
    result: JsonModel,
    session_id: Seq<char>,
    key: Seq<char>,
    inner: JsonModel,
)
    ensures
        json::has_member(result, "sessionId"@, JsonModel::Str(session_id)) ==> task_output(
            result,
        ) is Ok && (json::has_member(task_output(result)->Ok_0, key, inner) <==> {
            ||| key == "sessionId"@ && inner == JsonModel::Str(session_id)
            ||| key == "response"@ && result.str_at("response"@) is Some && inner == JsonModel::Str(
                result.str_at("response"@)->0,
            )
            ||| key == "response"@ && result.str_at("response"@) is None && inner == JsonModel::Str(
                Seq::empty(),
            )
            ||| key == "usage"@ && result.get("usage"@) == Some(inner)
            ||| key == "usage"@ && result.get("usage"@) is None && inner == JsonModel::Null
        }),
        result.str_at("sessionId"@) is None ==> task_output(result) == Err::<
            JsonModel,
            FunctionCallErrorModel,
        >(FunctionCallErrorModel::RespondToModel("ZCode output is missing sessionId"@)),
{
    reveal_strlit("sessionId");
    reveal_strlit("response");
    reveal_strlit("usage");
    assert("sessionId"@.len() == 9 && "response"@.len() == 8 && "usage"@.len() == 5);
}

/// A run that did not succeed is told with what went wrong; one that did is
/// answered with its output, or told why that cannot be read.
pub proof fn law_a_run_is_answered_by_how_it_ended(
    why: String,
    status: String,
    stdout: Vec<u8>,
    stderr: Vec<u8>,
    result: JsonModel,
    error: Seq<char>,
)
    ensures
        task_reply(PromptRun::TimedOut) == Err::<Seq<char>, FunctionCallErrorModel>(
            FunctionCallErrorModel::RespondToModel("ZCode timed out after 20 minutes"@),
        ),
        task_reply(PromptRun::LaunchFailed(why)) == Err::<Seq<char>, FunctionCallErrorModel>(
            FunctionCallErrorModel::RespondToModel("could not launch ZCode: "@ + why@),
        ),
        task_reply(PromptRun::Exited { success: false, status, stdout, stderr }) == Err::<
            Seq<char>,
            FunctionCallErrorModel,
        >(
            FunctionCallErrorModel::RespondToModel(
                "ZCode failed ("@ + status@ + "): "@ + lossy_text(stderr@),
            ),
        ),
        json::read_bytes(stdout@) == Err::<JsonModel, Seq<char>>(error) ==> task_reply(
            PromptRun::Exited { success: true, status, stdout, stderr },
        ) == Err::<Seq<char>, FunctionCallErrorModel>(
            FunctionCallErrorModel::RespondToModel(
                "invalid ZCode JSON output: "@ + error + "; "@ + lossy_text(stdout@),
            ),
        ),
        json::read_bytes(stdout@) == Ok::<JsonModel, Seq<char>>(result) ==> task_reply(
            PromptRun::Exited { success: true, status, stdout, stderr },
        ) == (match task_output(result) {
            Ok(output) => Ok::<Seq<char>, FunctionCallErrorModel>(json::pretty_text(output)),
            Err(refused) => Err(refused),
        }),
{
}

/// What a tool call gives and what a tool offers are modelled by all that they
/// hold.
pub proof fn law_tools_are_modelled_by_what_they_hold(
    output: Result<Json, FunctionCallError>,
    reply: Result<String, FunctionCallError>,
    message: Seq<char>,
    parameter: ToolParameter,
    name: Seq<char>,
    description: Seq<char>,
    kind: ParameterKindModel,
)
    ensures
        output matches Ok(value) ==> output_model(output) == Ok::<
            JsonModel,
            FunctionCallErrorModel,
        >(value@),
        output matches Err(error) ==> output_model(output) == Err::<
            JsonModel,
            FunctionCallErrorModel,
        >(error.deep_view()),
        reply matches Ok(said) ==> reply_model(reply) == Ok::<Seq<char>, FunctionCallErrorModel>(
            said@,
        ),
        reply matches Err(error) ==> reply_model(reply) == Err::<
            Seq<char>,
            FunctionCallErrorModel,
        >(error.deep_view()),
        told(message) == FunctionCallErrorModel::RespondToModel(message),
        parameter.deep_view().name == parameter.name@,
        parameter.deep_view().description == parameter.description@,
        parameter.deep_view().required == parameter.required,
        match parameter.kind {
            ParameterKind::Text => parameter.deep_view().kind is Text,
            ParameterKind::Integer => parameter.deep_view().kind is Integer,
            ParameterKind::OneOf(choices) => parameter.deep_view().kind
                == ParameterKindModel::OneOf(choices.deep_view()),
        },
        required_text(name, description) == (ToolParameterModel {
            name,
            description,
            kind: ParameterKindModel::Text,
            required: true,
        }),
        optional_of(name, description, kind) == (ToolParameterModel {
            name,
            description,
            kind,
            required: false,
        }),
{
}

proof fn lemma_item_is_kept(results: Seq<JsonModel>, at: int) -> (k: int)
    requires
        0 <= at < results.len(),
        result_item(results[at]) is Some,
    ensures
        0 <= k < result_items(results).len(),
        result_items(results)[k] == result_item(results[at])->0,
    decreases results.len(),
{
    if at == results.len() - 1 {
        result_items(results).len() - 1
    } else {
        lemma_item_is_kept(results.drop_last(), at)
    }
}

/// Whether one of the results that are given holds `text` for `key`.
pub open spec fn gives(results: JsonModel, key: Seq<char>, text: Seq<char>) -> bool {
    exists|items: Seq<JsonModel>, k: int|
        {
            &&& json::has_member(results, "results"@, JsonModel::Array(items))
            &&& 0 <= k < items.len()
            &&& json::has_member(#[trigger] items[k], key, JsonModel::Str(text))
        }
}

/// Asked for the results of a response whose model text is no JSON, the library
/// gives each listed one with the address, the title and the content that it
/// has.
pub proof fn law_listed_results_are_given_with_their_fields(
    response: &Json,
    parsed: Result<Json, String>,
    results: Json,
    listed: Seq<JsonModel>,
    at: int,
    text: Seq<char>,
)
    requires
        call_ensures(search_results, (response, parsed), results),
        parsed is Err,
        json::has_member(response@, "search_result"@, JsonModel::Array(listed)),
        0 <= at < listed.len(),
        text.len() > 0,
    ensures
        json::has_member(listed[at], "url"@, JsonModel::Str(text)) ==> gives(
            results@,
            "url"@,
            text,
        ),
        json::has_member(listed[at], "title"@, JsonModel::Str(text)) ==> gives(
            results@,
            "title"@,
            text,
        ),
        json::has_member(listed[at], "content"@, JsonModel::Str(text)) ==> gives(
            results@,
            "snippet"@,
            text,
        ),
{
    let items = result_items(listed);
    law_results_are_taken_from_the_first_place(response@, JsonModel::Array(listed));
    law_written_results_come_first(
        response@,
        json::read_model(parsed),
        "results"@,
        JsonModel::Array(items),
    );
    assert(results@.get("results"@) == Some(JsonModel::Array(items)));
    law_a_result_is_known_by_its_own_names(listed[at], text);
    if result_item(listed[at]) is Some {
        let k = lemma_item_is_kept(listed, at);
        let item = result_item(listed[at])->0;
        assert(items[k] == item);
        assert(json::has_member(item, "url"@, JsonModel::Str(text)) ==> gives(
            results@,
            "url"@,
            text,
        ));
        assert(json::has_member(item, "title"@, JsonModel::Str(text)) ==> gives(
            results@,
            "title"@,
            text,
        ));
        assert(json::has_member(item, "snippet"@, JsonModel::Str(text)) ==> gives(
            results@,
            "snippet"@,
            text,
        ));
    }
}

/// A runtime, an executable and an endpoint are those that are set, or else the
/// usual ones.
pub proof fn law_settings_have_their_defaults(
    value: Option<&str>,
    runtime: String,
    node: String,
    endpoint: String,
)
    requires
        call_ensures(runtime_from_value, (value,), runtime),
        call_ensures(node_from_value, (value,), node),
        call_ensures(search_endpoint_from_value, (value,), endpoint),
    ensures
        value matches Some(set) ==> runtime@ == set@ && node@ == set@ && endpoint@ == set@,
        value is None ==> {
            &&& runtime@ == "/opt/ZCode/resources/glm/zcode.cjs"@
            &&& node@ == "node"@
            &&& endpoint@ == "http://127.0.0.1:18765/zai/v1/responses"@
        },
{
}

/// A search asks for as many results as the caller names, or for five.
pub proof fn law_a_search_asks_for_five_unless_told(args: &ZaiSearchArgs, body: Json)
    requires
        call_ensures(search_body, (args,), body),
    ensures
        args.count matches Some(count) ==> body@ == search_body_model(args.query@, count),
        args.count is None ==> body@ == search_body_model(args.query@, 5),
{
}

/// Tasks run one at a time and need a prompt; searches may run side by side and
/// need a query. Everything else that they take may be left out.
pub proof fn law_tools_are_offered_with_what_they_take(
    prompt: ToolDefinition,
    search: ToolDefinition,
)
    requires
        call_ensures(prompt_tool_definition, (), prompt),
        call_ensures(search_tool_definition, (), search),
    ensures
        prompt.name@ == "zcode_prompt"@ && !prompt.parallel,
        ({
            let taken = prompt.parameters.deep_view();
            &&& taken.len() == 5
            &&& taken[0].name == "prompt"@ && taken[0].required && taken[0].kind is Text
            &&& taken[1].name == "session_id"@ && !taken[1].required && taken[1].kind is Text
            &&& taken[2].name == "cwd"@ && !taken[2].required && taken[2].kind is Text
            &&& taken[3].name == "mode"@ && !taken[3].required && taken[3].kind
                == ParameterKindModel::OneOf(seq!["build"@, "edit"@, "plan"@, "yolo"@])
            &&& taken[4].name == "max_turns"@ && !taken[4].required && taken[4].kind is Integer
        }),
        search.name@ == "zai_search"@ && search.parallel,
        ({
            let taken = search.parameters.deep_view();
            &&& taken.len() == 2
            &&& taken[0].name == "query"@ && taken[0].required && taken[0].kind is Text
            &&& taken[1].name == "count"@ && !taken[1].required && taken[1].kind is Integer
        }),
{
}

/// A task runs where it is told to and as it is told to.
pub proof fn law_a_task_runs_as_it_is_told(
    args: &ZCodePromptArgs,
    environment: Option<&str>,
    current: &str,
    directory: String,
    runtime: &str,
    cwd: &str,
    arguments: Vec<String>,
)
    requires
        call_ensures(prompt_cwd, (args, environment, current), directory),
        call_ensures(prompt_arguments, (args, runtime, cwd), arguments),
    ensures
        args.cwd matches Some(asked) ==> directory@ == asked@,
        args.cwd is None && environment is Some ==> directory@ == environment->0@,
        args.cwd is None && environment is None ==> directory@ == current@,
        arguments.deep_view() == task_arguments(
            runtime@,
            args.prompt@,
            args.mode.deep_view(),
            cwd@,
            args.session_id.deep_view(),
            args.max_turns,
        ),
{
}

/// What comes back from a task and from a search is what their replies say.
pub proof fn law_replies_are_those_of_their_runs(
    result: &Json,
    output: Result<Json, FunctionCallError>,
    run: &PromptRun,
    reply: Result<String, FunctionCallError>,
    response: &Json,
    results: Json,
    success: bool,
    status: &str,
    body: &str,
    answer: Result<String, FunctionCallError>,
)
    requires
        call_ensures(prompt_output, (result,), output),
        call_ensures(prompt_reply, (run,), reply),
        call_ensures(normalize_search_results, (response,), results),
        call_ensures(search_reply, (success, status, body), answer),
    ensures
        output_model(output) == task_output(result@),
        reply_model(reply) == task_reply(*run),
        results@ == normalized(response@),
        reply is Ok ==> run is Exited,
        answer is Ok <==> success && json::read_text(body@) is Ok,
        reply_model(answer) == search_reply_model(success, status@, body@),
{
}

} // verus!
