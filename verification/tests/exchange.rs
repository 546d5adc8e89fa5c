use http::{HeaderMap, HeaderValue};
use responses_runtime::client::{
    Compression, ExchangeAction, OutgoingRequest, Provider, RequestCompression,
    RequestMethod, ResponsesClient, ResponsesOptions, StreamExchange, TransportRequest,
};
use responses_runtime::error::{encode_error, raw_encode_error, retain_error, ApiError};
use responses_runtime::headers::SessionHeaders;
use responses_runtime::raw::RawJson;
use responses_runtime::request::ResponsesApiRequest;
use serde_json::Value;
use std::time::Duration;

type Client = ResponsesClient<&'static str, u8, &'static str, &'static str, &'static str>;
type Options = ResponsesOptions<(), u32>;

fn raw(text: &str) -> RawJson {
    RawJson::from_string(text.to_string()).unwrap()
}

fn client() -> Client {
    ResponsesClient::new(
        "transport",
        Provider { stream_idle_timeout: Duration::new(300, 5), details: 3 },
        "auth",
    )
}

fn request() -> ResponsesApiRequest {
    ResponsesApiRequest {
        model: "m".to_string(),
        instructions: String::new(),
        input: vec![raw("\"own\"")],
        tools: None,
        tool_choice: "auto".to_string(),
        parallel_tool_calls: false,
        reasoning: None,
        store: false,
        stream: true,
        stream_options: None,
        includes: Vec::new(),
        service_tier: None,
        prompt_cache_key: None,
        text: None,
        client_metadata: None,
    }
}

fn options() -> Options {
    let mut extra_headers = HeaderMap::new();
    extra_headers.insert("x-extra", HeaderValue::from_static("1"));
    ResponsesOptions {
        session_id: Some("s".to_string()),
        thread_id: Some("t".to_string()),
        session_source: None,
        extra_headers,
        compression: Compression::Zstd,
        turn_state: Some(7),
    }
}

fn session() -> SessionHeaders {
    let mut headers = HeaderMap::new();
    headers.insert("x-session", HeaderValue::from_static("s"));
    SessionHeaders { headers, subagent: Some("review".to_string()) }
}

fn check_post(request: &OutgoingRequest, input: &str, compression: RequestCompression) {
    assert_eq!(request.method, RequestMethod::Post);
    assert_eq!(request.path, "responses");
    assert_eq!(
        request.body.as_str(),
        format!(
            "{{\"model\":\"m\",\"input\":[{input}],\"tool_choice\":\"auto\",\
             \"parallel_tool_calls\":false,\"reasoning\":null,\"store\":false,\"stream\":true,\
             \"include\":[]}}"
        )
    );
    assert_eq!(request.compression, compression);
    assert_eq!(request.headers["x-extra"], "1");
    assert_eq!(request.headers["x-session"], "s");
    assert_eq!(request.headers["x-client-request-id"], "t");
    assert_eq!(request.headers["x-openai-subagent"], "review");
    assert_eq!(request.headers.len(), 4);
}

#[test]
fn a_new_client_has_no_telemetry() {
    let client = client();
    assert_eq!(client.session.transport, "transport");
    assert_eq!(client.session.provider.stream_idle_timeout, Duration::new(300, 5));
    assert_eq!(client.session.provider.details, 3);
    assert_eq!(client.session.auth, "auth");
    assert_eq!(client.session.request_telemetry, None);
    assert_eq!(client.sse_telemetry, None);
    let client = client.with_telemetry(Some("r"), Some("s"));
    assert_eq!(client.session.transport, "transport");
    assert_eq!(client.session.request_telemetry, Some("r"));
    assert_eq!(client.sse_telemetry, Some("s"));
    let client = client.with_telemetry(None, None);
    assert_eq!(client.session.request_telemetry, None);
    assert_eq!(client.sse_telemetry, None);
    assert_eq!(Client::path(), "responses");
}

#[test]
fn default_options_ask_for_nothing() {
    let options = Options::default();
    assert!(options.session_id.is_none());
    assert!(options.thread_id.is_none());
    assert!(options.session_source.is_none());
    assert!(options.extra_headers.is_empty());
    assert_eq!(options.compression, Compression::Identity);
    assert!(options.turn_state.is_none());
}

#[test]
fn plain_requests_are_sent_at_once() {
    let client = client().with_telemetry(None, Some("sse"));
    let (exchange, action): (StreamExchange<&str, u32, ()>, _) =
        client.stream_request(request(), options(), session()).unwrap();
    let ExchangeAction::Dispatch(post) = action else { panic!("not sent") };
    check_post(&post, "\"own\"", RequestCompression::Zstd);
    let (exchange, action) = exchange.step(Ok::<(), String>(())).unwrap();
    assert!(matches!(exchange, StreamExchange::Done));
    let ExchangeAction::OpenStream(settings) = action else { panic!("not opened") };
    assert_eq!(settings.idle_timeout, Duration::new(300, 5));
    assert_eq!(settings.sse_telemetry, Some(&"sse"));
    assert_eq!(settings.turn_state, Some(7));
    assert!(settings.raw_sink.is_none());
}

#[test]
fn raw_requests_wait_for_the_sink() {
    let client = client();
    let prefix = vec![raw("{ \"a\" : 1 }")];
    let suffix = vec![raw("2")];
    let (exchange, action) = client
        .stream_request_with_raw_input(
            &request(),
            &prefix,
            &suffix,
            options(),
            session(),
            Some("sink"),
        )
        .unwrap();
    let ExchangeAction::RecordRequestInput(items) = action else { panic!("not recorded") };
    let texts: Vec<&str> = items.iter().map(RawJson::get).collect();
    assert_eq!(texts, vec!["{ \"a\" : 1 }", "2"]);
    let (exchange, action) = exchange.step(Ok::<(), String>(())).unwrap();
    assert!(matches!(action, ExchangeAction::AuthorizeTransportDispatch));
    let (exchange, action) = exchange.step(Ok::<(), String>(())).unwrap();
    let ExchangeAction::Dispatch(post) = action else { panic!("not sent") };
    check_post(&post, "{ \"a\" : 1 },2", RequestCompression::Zstd);
    for text in texts {
        assert!(post.body.as_str().contains(text));
    }
    let (_, action) = exchange.step(Ok::<(), String>(())).unwrap();
    let ExchangeAction::OpenStream(settings) = action else { panic!("not opened") };
    assert_eq!(settings.raw_sink, Some("sink"));
    assert_eq!(settings.sse_telemetry, None);
}

#[test]
fn raw_requests_without_a_sink_are_sent_at_once() {
    let client = client();
    let (_, action): (StreamExchange<&str, u32, ()>, _) = client
        .stream_request_with_raw_input(&request(), &[raw("1")], &[], options(), session(), None)
        .unwrap();
    let ExchangeAction::Dispatch(post) = action else { panic!("not sent") };
    check_post(&post, "1", RequestCompression::Zstd);
}

#[test]
fn failures_end_the_exchange_unchanged() {
    let client = client();
    for failing in 0..3 {
        let (mut exchange, _) = client
            .stream_request_with_raw_input(&request(), &[], &[], options(), session(), Some(()))
            .unwrap();
        for _ in 0..failing {
            exchange = exchange.step(Ok::<(), String>(())).unwrap().0;
        }
        let failure = exchange.step(Err::<(), String>(format!("failure {failing}"))).err();
        assert_eq!(failure, Some(format!("failure {failing}")));
    }
}

#[test]
fn documents_are_sent_compactly() {
    let client = client();
    let body: Value = serde_json::from_str("{ \"b\": [1, 2], \"a\": \"x\" }").unwrap();
    let mut headers = HeaderMap::new();
    headers.insert("x-extra", HeaderValue::from_static("1"));
    let (_, action): (StreamExchange<&str, u32, ()>, _) =
        client.stream(body, headers, Compression::Identity, Some(1)).unwrap();
    let ExchangeAction::Dispatch(post) = action else { panic!("not sent") };
    assert_eq!(post.body.as_str(), "{\"a\":\"x\",\"b\":[1,2]}");
    assert_eq!(post.compression, RequestCompression::Identity);
    assert_eq!(post.headers.len(), 1);
}

#[test]
fn configuring_asks_for_events_and_compression() {
    let client = client();
    let (_, action): (StreamExchange<&str, u32, ()>, _) =
        client.stream_request(request(), options(), session()).unwrap();
    let ExchangeAction::Dispatch(post) = action else { panic!("not sent") };
    let mut headers = HeaderMap::new();
    headers.insert("accept", HeaderValue::from_static("*/*"));
    headers.insert("x-own", HeaderValue::from_static("1"));
    let mut transport = TransportRequest { headers, compression: RequestCompression::Identity };
    assert!(post.configure(&mut transport));
    assert_eq!(transport.headers["accept"], "text/event-stream");
    assert_eq!(transport.headers["x-own"], "1");
    assert_eq!(transport.headers.len(), 2);
    assert_eq!(transport.compression, RequestCompression::Zstd);
}

fn crowd(count: usize) -> HeaderMap {
    let mut headers = HeaderMap::new();
    for i in 0..count {
        let name = http::HeaderName::from_bytes(format!("x-{i}").as_bytes()).unwrap();
        headers.insert(name, HeaderValue::from_static("1"));
    }
    headers
}

#[test]
fn headers_are_sent_for_as_long_as_the_map_takes_them() {
    let client = client();
    let crowded = || ResponsesOptions { extra_headers: crowd(20000), ..options() };
    let (_, action) =
        client.try_stream_request::<(), u32, ()>(request(), crowded(), session()).unwrap().unwrap();
    let ExchangeAction::Dispatch(post) = action else { panic!("not sent") };
    assert_eq!(post.headers.len(), 20003);
    assert_eq!(post.headers["x-client-request-id"], "t");
    assert_eq!(post.headers["x-session"], "s");
    assert!(client
        .try_stream_request_with_raw_input(&request(), &[], &[], crowded(), session(), Some(()))
        .is_some());
    let mut transport =
        TransportRequest { headers: post.headers.clone(), compression: RequestCompression::Identity };
    assert!(post.configure(&mut transport));
    assert_eq!(transport.headers["accept"], "text/event-stream");
}

#[test]
fn a_map_that_is_full_begins_nothing() {
    let client = client();
    let full = crowd(24576);
    let crowded = || ResponsesOptions { extra_headers: full.clone(), ..options() };
    assert!(client.try_stream_request::<(), u32, ()>(request(), crowded(), session()).is_none());
    assert!(client
        .try_stream_request_with_raw_input(&request(), &[], &[], crowded(), session(), Some(()))
        .is_none());
    let (_, action): (StreamExchange<&str, u32, ()>, _) =
        client.stream_request(request(), options(), session()).unwrap();
    let ExchangeAction::Dispatch(post) = action else { panic!("not sent") };
    let mut transport =
        TransportRequest { headers: full.clone(), compression: RequestCompression::Identity };
    assert!(!post.configure(&mut transport));
    assert_eq!(transport.headers, full);
    assert_eq!(transport.compression, RequestCompression::Identity);
}

#[test]
fn a_document_is_sent_like_the_request_it_was_made_from() {
    let client = client();
    let plain = || Options { compression: Compression::Zstd, ..Options::default() };
    let nobody = || SessionHeaders { headers: HeaderMap::new(), subagent: None };
    let (_, action): (StreamExchange<&str, u32, ()>, _) =
        client.stream_request(request(), plain(), nobody()).unwrap();
    let ExchangeAction::Dispatch(first) = action else { panic!("not sent") };
    let document: Value = serde_json::from_str(first.body.as_str()).unwrap();
    let (_, action): (StreamExchange<&str, u32, ()>, _) =
        client.stream(document.clone(), HeaderMap::new(), Compression::Zstd, None).unwrap();
    let ExchangeAction::Dispatch(second) = action else { panic!("not sent") };
    assert_eq!(first.method, second.method);
    assert_eq!(first.path, second.path);
    assert_eq!(first.headers, second.headers);
    assert_eq!(first.compression, second.compression);
    let sent: Value = serde_json::from_str(second.body.as_str()).unwrap();
    assert_eq!(sent, document);
}

#[test]
fn errors_say_what_failed() {
    let ApiError::Stream(message) = encode_error("x");
    assert_eq!(message, "failed to encode responses request: x");
    let ApiError::Stream(message) = raw_encode_error("x");
    assert_eq!(message, "failed to encode raw responses request: x");
    let ApiError::Stream(message) = retain_error("x");
    assert_eq!(message, "failed to retain raw HTTP input: x");
}
