use http::{HeaderMap, HeaderName, HeaderValue};
use responses_runtime::headers::{
    accept_event_stream, headers_fit, insert_header, request_headers, SessionHeaders,
    MAX_HEADER_NAMES,
};

fn map(pairs: &[(&'static str, &'static str)]) -> HeaderMap {
    let mut headers = HeaderMap::new();
    for (name, value) in pairs {
        headers.append(*name, HeaderValue::from_static(value));
    }
    headers
}

fn session(pairs: &[(&'static str, &'static str)], subagent: Option<&str>) -> SessionHeaders {
    SessionHeaders { headers: map(pairs), subagent: subagent.map(str::to_string) }
}

fn values(headers: &HeaderMap, name: &str) -> Vec<String> {
    headers.get_all(name).iter().map(|v| v.to_str().unwrap().to_string()).collect()
}

#[test]
fn inserting_replaces_all_earlier_values() {
    let mut headers = map(&[("x-a", "1"), ("x-a", "2"), ("x-b", "3")]);
    assert!(insert_header(&mut headers, "x-a", "new"));
    assert_eq!(values(&headers, "x-a"), vec!["new"]);
    assert_eq!(values(&headers, "x-b"), vec!["3"]);
    assert_eq!(headers.len(), 2);
}

#[test]
fn values_that_cannot_stand_in_a_header_are_passed_over() {
    let mut headers = map(&[("x-a", "1")]);
    assert!(insert_header(&mut headers, "x-a", "line\nbreak"));
    assert!(insert_header(&mut headers, "x-b", "del\u{7f}"));
    assert_eq!(values(&headers, "x-a"), vec!["1"]);
    assert_eq!(headers.len(), 1);
    assert!(insert_header(&mut headers, "x-b", "tab\t\u{e9}"));
    assert_eq!(headers["x-b"].as_bytes(), "tab\t\u{e9}".as_bytes());
}

#[test]
fn thread_is_the_request_identifier() {
    let headers = request_headers(
        map(&[("x-client-request-id", "callers")]),
        &Some("thread-1".to_string()),
        session(&[], None),
    )
    .unwrap();
    assert_eq!(values(&headers, "x-client-request-id"), vec!["thread-1"]);
    assert_eq!(headers.len(), 1);
}

#[test]
fn no_thread_leaves_the_callers_identifier() {
    let headers =
        request_headers(map(&[("x-client-request-id", "callers")]), &None, session(&[], None))
            .unwrap();
    assert_eq!(values(&headers, "x-client-request-id"), vec!["callers"]);
}

#[test]
fn session_headers_override_the_callers() {
    let headers = request_headers(
        map(&[("x-s", "old"), ("x-s", "older"), ("x-keep", "1"), ("x-keep", "2")]),
        &Some("thread".to_string()),
        session(&[("x-s", "new"), ("x-s", "newer"), ("x-client-request-id", "s")], None),
    )
    .unwrap();
    assert_eq!(values(&headers, "x-s"), vec!["new", "newer"]);
    assert_eq!(values(&headers, "x-keep"), vec!["1", "2"]);
    assert_eq!(values(&headers, "x-client-request-id"), vec!["s"]);
    assert_eq!(headers.len(), 5);
}

#[test]
fn subagent_label_overrides_everything() {
    let headers = request_headers(
        map(&[("x-openai-subagent", "callers")]),
        &None,
        session(&[("x-openai-subagent", "sessions")], Some("review")),
    )
    .unwrap();
    assert_eq!(values(&headers, "x-openai-subagent"), vec!["review"]);
}

#[test]
fn no_headers_are_made_up() {
    let headers = request_headers(HeaderMap::new(), &None, session(&[], None)).unwrap();
    assert!(headers.is_empty());
}

#[test]
fn events_are_asked_for_whatever_stood_before() {
    let mut headers = map(&[("accept", "application/json"), ("x-a", "1")]);
    assert!(accept_event_stream(&mut headers));
    assert_eq!(values(&headers, "accept"), vec!["text/event-stream"]);
    assert_eq!(values(&headers, "x-a"), vec!["1"]);
}

#[test]
fn room_is_counted_in_names() {
    let mut headers = HeaderMap::new();
    for i in 0..MAX_HEADER_NAMES - 2 {
        let name = HeaderName::from_bytes(format!("x-{i}").as_bytes()).unwrap();
        headers.append(name.clone(), HeaderValue::from_static("a"));
        headers.append(name, HeaderValue::from_static("b"));
    }
    assert!(headers_fit(&headers, &HeaderMap::new()));
    assert!(!headers_fit(&headers, &map(&[("y", "1")])));
    let built = request_headers(
        headers.clone(),
        &Some("thread".to_string()),
        session(&[], Some("review")),
    );
    let mut built = built.unwrap();
    assert_eq!(built.keys_len(), MAX_HEADER_NAMES);
    assert!(accept_event_stream(&mut built));
    headers.insert("y", HeaderValue::from_static("1"));
    assert!(!headers_fit(&headers, &HeaderMap::new()));
}

fn crowd(count: usize) -> HeaderMap {
    let mut headers = HeaderMap::new();
    for i in 0..count {
        let name = HeaderName::from_bytes(format!("x-{i}").as_bytes()).unwrap();
        headers.insert(name, HeaderValue::from_static("a"));
    }
    headers
}

#[test]
fn names_that_both_sides_use_count_once() {
    let headers = request_headers(
        crowd(6000),
        &None,
        SessionHeaders { headers: crowd(6000), subagent: Some("review".to_string()) },
    )
    .unwrap();
    assert_eq!(headers.keys_len(), 6001);
}

#[test]
fn room_is_asked_for_once_for_each_name() {
    let headers =
        request_headers(crowd(24575), &None, session(&[("y", "1"), ("y", "2"), ("y", "3")], None))
            .unwrap();
    assert_eq!(values(&headers, "y"), vec!["1", "2", "3"]);
    assert_eq!(headers.keys_len(), 24576);
}

#[test]
fn nothing_to_add_needs_no_room() {
    let headers = request_headers(
        crowd(24576),
        &Some("line\nbreak".to_string()),
        session(&[], Some("del\u{7f}")),
    )
    .unwrap();
    assert_eq!(headers, crowd(24576));
}

#[test]
fn names_may_hold_every_token_character() {
    let name = "!\"#$%&'*+-.^_`|~09az";
    let mut headers = HeaderMap::new();
    assert!(insert_header(&mut headers, name, "1"));
    assert_eq!(headers.keys().next().unwrap().as_str(), name);
}

#[test]
fn a_full_map_refuses_another_name() {
    let mut headers = crowd(24576);
    let before = headers.clone();
    assert!(!insert_header(&mut headers, "y", "1"));
    assert!(insert_header(&mut headers, "y", "line\nbreak"));
    assert!(!accept_event_stream(&mut headers));
    assert_eq!(headers, before);
    assert!(request_headers(headers, &None, session(&[("y", "1")], None)).is_none());
}
