use codex_zcode::json::Json;

fn json(text: &str) -> Json {
    Json::read(text).expect("fixture parses")
}

#[test]
fn text_reads_into_a_tree_and_writes_back_with_sorted_keys() {
    let value = json(r#" {"b": [1, -2, 2.5, null, true], "a": {"k": "v\n"}} "#);
    assert_eq!(
        value.render(),
        r#"{"a":{"k":"v\n"},"b":[1,-2,2.5,null,true]}"#
    );
    assert_eq!(
        value.get("a").and_then(|a| a.get("k")).and_then(Json::as_str),
        Some("v\n")
    );
}

#[test]
fn numbers_keep_their_value() {
    assert_eq!(json("18446744073709551615"), Json::PosInt(u64::MAX));
    assert_eq!(json("-9223372036854775808"), Json::NegInt(i64::MIN));
    assert_eq!(json("7").as_i64(), Some(7));
    assert_eq!(json("7").as_u64(), Some(7));
    assert_eq!(json("-7").as_i64(), Some(-7));
    assert_eq!(json("-7").as_u64(), None);
    assert_eq!(json("18446744073709551615").as_i64(), None);
    assert_eq!(json("0.1").as_i64(), None);
    for text in ["0.1", "-0.0", "1e300", "123456789.125", "5e-324"] {
        let float = json(text);
        assert_eq!(json(&float.render()).render(), float.render(), "{text}");
    }
    assert_eq!(json("0.1").render(), "0.1");
}

#[test]
fn later_entries_win() {
    let value = json(r#"{"a": 1, "a": 2}"#);
    assert_eq!(value.get("a").and_then(Json::as_i64), Some(2));
    let built = Json::object()
        .with("a", Json::PosInt(1))
        .with("b", Json::Null)
        .with("a", Json::PosInt(3));
    assert_eq!(built.get("a").and_then(Json::as_i64), Some(3));
    assert_eq!(built.render(), r#"{"a":3,"b":null}"#);
}

#[test]
fn readers_of_the_wrong_kind_find_nothing() {
    let value = json(r#"{"s": "x", "n": 1, "l": [5], "o": {"0": "zero"}}"#);
    assert_eq!(value.str_at("s"), Some("x"));
    assert_eq!(value.str_at("n"), None);
    assert_eq!(value.str_at("missing"), None);
    assert!(value.get("s").unwrap().get("x").is_none());
    assert_eq!(
        value.get("l").unwrap().first().and_then(Json::as_i64),
        Some(5)
    );
    assert_eq!(
        value.get("o").unwrap().first().and_then(Json::as_str),
        Some("zero")
    );
    assert!(value.get("n").unwrap().first().is_none());
    assert_eq!(value.get("l").unwrap().as_array().map(Vec::len), Some(1));
    assert!(value.as_array().is_none());
    assert_eq!(json("true").as_bool(), Some(true));
    assert_eq!(json("1").as_bool(), None);
}

#[test]
fn stripping_drops_exactly_the_named_keys() {
    let params = json(r#"{"workspace": {"x": 1}, "mode": "yolo", "extra": false}"#);
    let stripped = params.without(&vec!["extra".to_string(), "x".to_string()]);
    assert_eq!(
        stripped.render(),
        r#"{"mode":"yolo","workspace":{"x":1}}"#
    );
    assert_eq!(
        json("[1]").without(&vec!["0".to_string()]).render(),
        "[1]"
    );
}

#[test]
fn copies_are_equal() {
    let value = json(r#"{"a": [null, true, 1, -1, 1.5, "t", {"k": []}]}"#);
    assert_eq!(value.clone(), value);
}

#[test]
fn broken_text_is_an_error_that_says_where() {
    let error = Json::read("{ not json").unwrap_err();
    assert!(error.contains("line 1 column 3"), "{error}");
    assert!(Json::read("").is_err());
    let error = Json::read_slice(b"[1,").unwrap_err();
    assert!(error.contains("EOF"), "{error}");
    assert_eq!(Json::read_slice(b"[1]").unwrap().render(), "[1]");
    assert!(Json::read_slice(&[0xff, 0xfe]).is_err());
}

#[test]
fn frames_stay_on_one_line_and_pretty_text_does_not() {
    let value = json(r#"{"text": "a\nb\u0001"}"#);
    assert_eq!(value.render(), r#"{"text":"a\nb\u0001"}"#);
    assert_eq!(
        json(r#"{"b":1,"a":[]}"#).render_pretty(),
        "{\n  \"a\": [],\n  \"b\": 1\n}"
    );
}
