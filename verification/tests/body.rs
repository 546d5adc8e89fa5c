use responses_runtime::metadata::ClientMetadata;
use responses_runtime::raw::RawJson;
use responses_runtime::request::{RawResponsesApiRequest, ResponsesApiRequest};
use serde_json::value::RawValue;
use serde_json::Value;
use std::collections::BTreeMap;

fn raw(text: &str) -> RawJson {
    RawJson::from_string(text.to_string()).unwrap()
}

fn metadata(pairs: &[(&str, &str)]) -> ClientMetadata {
    let mut metadata = ClientMetadata::new();
    for (key, value) in pairs {
        metadata.insert(key.to_string(), value.to_string());
    }
    metadata
}

fn plain_request() -> ResponsesApiRequest {
    ResponsesApiRequest {
        model: "gpt-test".to_string(),
        instructions: String::new(),
        input: Vec::new(),
        tools: None,
        tool_choice: "auto".to_string(),
        parallel_tool_calls: false,
        reasoning: None,
        store: false,
        stream: true,
        stream_options: None,
        includes: Vec::new(),
        service_tier: None,
        prompt_cache_key: None,
        text: None,
        client_metadata: None,
    }
}

fn encode_raw_body_for_test(
    request: &ResponsesApiRequest,
    retained_prefix: &[RawJson],
    fresh_suffix: &[RawJson],
) -> String {
    let body = RawResponsesApiRequest::new(request, retained_prefix, fresh_suffix)
        .encode()
        .expect("raw request should encode");
    String::from_utf8(body.as_bytes().to_vec()).expect("encoded body should be UTF-8")
}

fn object(members: Vec<(&str, Value)>) -> Value {
    let mut map = serde_json::Map::new();
    for (key, value) in members {
        map.insert(key.to_string(), value);
    }
    Value::Object(map)
}

#[test]
fn raw_http_body_preserves_unknown_item_tokens() {
    let request = ResponsesApiRequest {
        model: "gpt-test".to_string(),
        instructions: String::new(),
        input: Vec::new(),
        tools: None,
        tool_choice: "auto".to_string(),
        parallel_tool_calls: false,
        reasoning: None,
        store: false,
        stream: true,
        stream_options: None,
        includes: Vec::new(),
        service_tier: None,
        prompt_cache_key: None,
        text: None,
        client_metadata: None,
    };
    let prefix = vec![
        RawJson::from_string(r#"{ "type":"future_item", "opaque": {"a":1} }"#.to_string()).unwrap(),
    ];
    let suffix = vec![
        RawJson::from_string(r#"{"type":"future_variant","x":[1,2]}"#.to_string()).unwrap(),
    ];
    let body = encode_raw_body_for_test(&request, &prefix, &suffix);
    let value: Value = serde_json::from_str(&body).expect("valid HTTP body");
    assert_eq!(
        value["input"][0],
        object(vec![
            ("type", Value::from("future_item")),
            ("opaque", object(vec![("a", Value::from(1))])),
        ])
    );
    assert_eq!(
        value["input"][1],
        object(vec![
            ("type", Value::from("future_variant")),
            ("x", Value::Array(vec![Value::from(1), Value::from(2)])),
        ])
    );
    assert!(body.contains(r#"{ "type":"future_item", "opaque": {"a":1} }"#));
}

#[test]
fn smallest_body_leaves_out_what_is_absent() {
    assert_eq!(
        encode_raw_body_for_test(&plain_request(), &[], &[]),
        concat_lines(&[
            r#"{"model":"gpt-test","input":[],"tool_choice":"auto","#,
            r#""parallel_tool_calls":false,"reasoning":null,"store":false,"stream":true,"#,
            r#""include":[]}"#,
        ])
    );
}

#[test]
fn fullest_body_keeps_the_order_of_members() {
    let request = ResponsesApiRequest {
        instructions: "be \"brief\"".to_string(),
        input: vec![raw("1"), raw("\"two\"")],
        tools: Some(raw("[ ]")),
        parallel_tool_calls: true,
        reasoning: Some(raw(r#"{"effort":"low"}"#)),
        store: true,
        stream: false,
        stream_options: Some(raw(r#"{"x":true}"#)),
        includes: vec!["a".to_string(), "b".to_string()],
        service_tier: Some("flex".to_string()),
        prompt_cache_key: Some("key".to_string()),
        text: Some(raw(r#"{"verbosity":"low"}"#)),
        client_metadata: Some(metadata(&[("z", "1"), ("a\n", "2")])),
        ..plain_request()
    };
    let expected = concat_lines(&[
        r#"{"model":"gpt-test","instructions":"be \"brief\"","input":[1,"two"],"tools":[ ],"#,
        r#""tool_choice":"auto","parallel_tool_calls":true,"reasoning":{"effort":"low"},"#,
        r#""store":true,"stream":false,"stream_options":{"x":true},"include":["a","b"],"#,
        r#""service_tier":"flex","prompt_cache_key":"key","text":{"verbosity":"low"},"#,
        r#""client_metadata":{"z":"1","a\n":"2"}}"#,
    ]);
    assert_eq!(request.encode().unwrap().as_str(), expected);
}

fn concat_lines(lines: &[&str]) -> String {
    lines.concat()
}

#[test]
fn strings_are_escaped_as_json() {
    let request = ResponsesApiRequest {
        model: "\u{8}\t\n\u{c}\r\"\\/\u{1}\u{1f} \u{7f}\u{e9}\u{1f600}".to_string(),
        ..plain_request()
    };
    let body = encode_raw_body_for_test(&request, &[], &[]);
    assert!(body.starts_with(
        "{\"model\":\"\\b\\t\\n\\f\\r\\\"\\\\/\\u0001\\u001f \u{7f}\u{e9}\u{1f600}\",\"input\""
    ));
    let value: Value = serde_json::from_str(&body).unwrap();
    assert_eq!(value["model"], Value::from(request.model));
}

#[test]
fn own_input_is_ignored_where_raw_input_is_given() {
    let request = ResponsesApiRequest { input: vec![raw("\"own\"")], ..plain_request() };
    let body = encode_raw_body_for_test(&request, &[raw("1")], &[raw("2")]);
    assert!(body.contains("\"input\":[1,2]"));
    assert!(!body.contains("own"));
}

#[test]
fn items_keep_their_order_and_text() {
    let request = plain_request();
    let prefix = vec![raw("{\"b\": 1,  \"a\":2}"), raw("[1 ,2]")];
    let suffix = vec![raw("1.50"), raw("\"\\u0041\"")];
    let body = encode_raw_body_for_test(&request, &prefix, &suffix);
    assert!(body.contains("\"input\":[{\"b\": 1,  \"a\":2},[1 ,2],1.50,\"\\u0041\"],\"tool_choice\""));
}

#[test]
fn dividing_the_input_differently_gives_the_same_body() {
    let request = plain_request();
    let whole = encode_raw_body_for_test(&request, &[raw("1"), raw("2"), raw("3")], &[]);
    assert_eq!(whole, encode_raw_body_for_test(&request, &[raw("1")], &[raw("2"), raw("3")]));
    assert_eq!(whole, encode_raw_body_for_test(&request, &[], &[raw("1"), raw("2"), raw("3")]));
    let typed = ResponsesApiRequest {
        input: vec![raw("1"), raw("2"), raw("3")],
        ..plain_request()
    };
    assert_eq!(whole, typed.encode().unwrap().as_str());
}

#[test]
fn input_is_framed_by_the_rest_of_the_request() {
    let request = plain_request();
    let empty = encode_raw_body_for_test(&request, &[], &[]);
    let one = encode_raw_body_for_test(&request, &[raw("[true]")], &[]);
    assert_eq!(empty.replace("\"input\":[]", "\"input\":[[true]]"), one);
}

#[test]
fn input_can_be_read_back_and_sent_again() {
    let request = plain_request();
    let prefix = vec![raw("{ \"a\" : [ 1 , \"],\" ] }"), raw("[]")];
    let suffix = vec![raw("1.50"), raw("\"\\\"],\"")];
    let body = encode_raw_body_for_test(&request, &prefix, &suffix);
    let members: BTreeMap<String, Box<RawValue>> = serde_json::from_str(&body).unwrap();
    let found: Vec<Box<RawValue>> = serde_json::from_str(members["input"].get()).unwrap();
    let found: Vec<RawJson> = found.iter().map(|item| raw(item.get())).collect();
    let found_texts: Vec<&str> = found.iter().map(RawJson::get).collect();
    let sent_texts: Vec<&str> = prefix.iter().chain(&suffix).map(RawJson::get).collect();
    assert_eq!(found_texts, sent_texts);
    assert_eq!(encode_raw_body_for_test(&request, &found, &[]), body);
}

#[test]
fn values_end_where_a_comma_or_a_bracket_follows() {
    for value in ["1", "-0.5e3", "true", "null", "\"x\"", "[1]", "{\"a\":[]}", "[]"] {
        assert!(RawJson::from_string(value.to_string()).is_ok());
        for rest in ["", "1", "]", " ", "[", "\""] {
            assert!(RawJson::from_string(format!("{value},{rest}")).is_err());
            assert!(RawJson::from_string(format!("{value}]{rest}")).is_err());
        }
    }
    assert!(RawJson::from_string("]".to_string()).is_err());
}

#[test]
fn a_key_has_one_value() {
    let mut metadata = metadata(&[("a", "1"), ("b", "2")]);
    assert_eq!(metadata.insert("a".to_string(), "3".to_string()), Some("1".to_string()));
    assert_eq!(metadata.insert("c".to_string(), "4".to_string()), None);
    let request = ResponsesApiRequest { client_metadata: Some(metadata), ..plain_request() };
    let body = encode_raw_body_for_test(&request, &[], &[]);
    assert!(body.ends_with("\"client_metadata\":{\"a\":\"3\",\"b\":\"2\",\"c\":\"4\"}}"));
    let request =
        ResponsesApiRequest { client_metadata: Some(ClientMetadata::new()), ..plain_request() };
    let body = encode_raw_body_for_test(&request, &[], &[]);
    assert!(body.ends_with("\"client_metadata\":{}}"));
}

#[test]
fn different_texts_are_written_differently() {
    let mut bodies: Vec<String> = Vec::new();
    for model in ["a", "\"a\"", "\\", "\\\\", "\n", "\\n", "\u{1}", "\\u0001", ""] {
        let request = ResponsesApiRequest { model: model.to_string(), ..plain_request() };
        let body = encode_raw_body_for_test(&request, &[], &[]);
        assert!(!bodies.contains(&body));
        bodies.push(body);
    }
}

#[test]
fn raw_values_lose_only_the_space_around_them() {
    let value = raw(" \t\r\n{ \"a\" : [ 1 ] }\n ");
    assert_eq!(value.get(), "{ \"a\" : [ 1 ] }");
    assert_eq!(value.retain().unwrap().get(), "{ \"a\" : [ 1 ] }");
}

#[test]
fn texts_that_are_not_one_json_value_are_refused() {
    assert_eq!(
        RawJson::from_string("nope".to_string()).unwrap_err(),
        "expected ident at line 1 column 2"
    );
    assert_eq!(
        RawJson::from_string(String::new()).unwrap_err(),
        "EOF while parsing a value at line 1 column 0"
    );
    assert!(RawJson::from_string("1 2".to_string()).is_err());
    assert!(RawJson::from_string("{\"a\":}".to_string()).is_err());
}
