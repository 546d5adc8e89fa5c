//! The Responses client: what it sends, and in which order a stream is opened.
//!
//! The client decides and the application acts. Opening a stream is an exchange:
//! the client names an action, the application performs it and reports how it
//! went, and the client names the next one.

use vstd::pervasive::unreached;
use vstd::prelude::*;
use vstd::utf8::encode_utf8;

use crate::error::{encode_error, raw_encode_error, retain_error, ApiError};
use crate::headers::{accept_event_stream, map_new, request_headers, SessionHeaders};
use crate::headers::{
    accepting_events, can_combine, has_room, header_entries, no_entries, request_entries,
};
use crate::json::{document_text, optional_text, serialize_value};
use crate::raw::{raw_texts, RawJson};
use crate::request::{
    EncodedJsonBody, RawResponsesApiRequest, ResponsesApiRequest,
};
use crate::request::{body_text, RequestView};

verus! {

/// How the caller wants request bodies to be compressed.
#[derive(Clone, Copy, Debug, PartialEq, Eq, Structural)]
pub enum Compression {
    /// Not at all.
    Identity,
    Zstd,
}

/// How the transport compresses a request body.
#[derive(Clone, Copy, Debug, PartialEq, Eq, Structural)]
pub enum RequestCompression {
    /// Not at all.
    Identity,
    Zstd,
}

/// The HTTP methods that the client uses.
#[derive(Clone, Copy, Debug, PartialEq, Eq, Structural)]
pub enum RequestMethod {
    Post,
}

/// The provider that the client talks to. `P` is what only the transport needs
/// to know of it.
pub struct Provider<P> {
    /// How long a stream may stay silent.
    pub stream_idle_timeout: std::time::Duration,
    pub details: P,
}

/// The transport, credentials and telemetry that requests go through.
pub struct EndpointSession<T, P, A, R> {
    pub transport: T,
    pub provider: Provider<P>,
    pub auth: A,
    pub request_telemetry: Option<R>,
}

/// A client of the Responses endpoint.
///
/// `T` is the transport, `P` what it needs to know of the provider, `A` the
/// source of credentials, `R` and `S` observe requests and event streams. The
/// client hands them on and never looks inside.
pub struct ResponsesClient<T, P, A, R, S> {
    pub session: EndpointSession<T, P, A, R>,
    pub sse_telemetry: Option<S>,
}

/// What a caller may say about one request. `C` tells where the session comes
/// from, `U` is the state that a turn keeps across its requests.
pub struct ResponsesOptions<C, U> {
    pub session_id: Option<String>,
    pub thread_id: Option<String>,
    pub session_source: Option<C>,
    pub extra_headers: http::HeaderMap,
    pub compression: Compression,
    pub turn_state: Option<U>,
}

impl<C, U> Default for ResponsesOptions<C, U> {
    /// No identifiers, no headers, no compression.
    fn default() -> (options: ResponsesOptions<C, U>)
        ensures
            options.session_id is None,
            options.thread_id is None,
            options.session_source is None,
            header_entries(options.extra_headers) == no_entries(),
            options.compression == Compression::Identity,
            options.turn_state is None,
    {
        ResponsesOptions {
            session_id: None,
            thread_id: None,
            session_source: None,
            extra_headers: map_new(),
            compression: Compression::Identity,
            turn_state: None,
        }
    }
}

/// A request that is ready to be sent.
pub struct OutgoingRequest {
    pub method: RequestMethod,
    /// The endpoint, below the provider's base address.
    pub path: &'static str,
    pub headers: http::HeaderMap,
    pub body: EncodedJsonBody,
    pub compression: RequestCompression,
}

/// The contents of an [`OutgoingRequest`].
#[verifier::ext_equal]
pub struct OutgoingView {
    pub method: RequestMethod,
    pub path: Seq<char>,
    pub headers: Map<Seq<char>, Seq<Seq<u8>>>,
    pub body: Seq<char>,
    pub compression: RequestCompression,
}

impl View for OutgoingRequest {
    type V = OutgoingView;

    open spec fn view(&self) -> OutgoingView {
        OutgoingView {
            method: self.method,
            path: self.path@,
            headers: header_entries(self.headers),
            body: self.body@,
            compression: self.compression,
        }
    }
}

/// The parts of a transport request that the client sets last.
pub struct TransportRequest {
    pub headers: http::HeaderMap,
    pub compression: RequestCompression,
}

/// The transport's counterpart of a compression.
pub open spec fn wire_compression(compression: Compression) -> RequestCompression {
    match compression {
        Compression::Identity => RequestCompression::Identity,
        Compression::Zstd => RequestCompression::Zstd,
    }
}

impl OutgoingRequest {
    /// Completes the request that the transport is about to send: it asks for a
    /// stream of events and uses this request's compression. Where the headers
    /// would have to grow and cannot, they stay what they were and so does the
    /// compression.
    pub fn configure(&self, request: &mut TransportRequest) -> (done: bool)
        ensures
            has_room(header_entries(old(request).headers)) ==> done,
            done ==> header_entries(final(request).headers) == accepting_events(
                header_entries(old(request).headers),
            ),
            done ==> final(request).compression == self.compression,
            !done ==> header_entries(final(request).headers) == header_entries(
                old(request).headers,
            ),
            !done ==> final(request).compression == old(request).compression,
            done ==> header_entries(final(request).headers) == header_entries(
                old(request).headers,
            ).insert("accept"@, seq![encode_utf8("text/event-stream"@)]),
    {
        if accept_event_stream(&mut request.headers) {
            request.compression = self.compression;
            true
        } else {
            false
        }
    }
}

/// How the event stream of an accepted request is read.
pub struct StreamSettings<'a, S, U, K> {
    pub idle_timeout: std::time::Duration,
    pub sse_telemetry: Option<&'a S>,
    pub turn_state: Option<U>,
    pub raw_sink: Option<K>,
}

/// What the application has to do next.
pub enum ExchangeAction<'a, S, U, K> {
    /// Hand the items that are about to be sent to the raw sink.
    RecordRequestInput(Vec<RawJson>),
    /// Ask the raw sink for leave to send.
    AuthorizeTransportDispatch,
    /// Send the request.
    Dispatch(OutgoingRequest),
    /// Read the event stream of the response.
    OpenStream(StreamSettings<'a, S, U, K>),
}

/// An exchange between its actions.
pub enum StreamExchange<'a, S, U, K> {
    /// The raw sink is recording the items.
    Recording { request: OutgoingRequest, settings: StreamSettings<'a, S, U, K> },
    /// The raw sink is deciding whether the request may be sent.
    Authorizing { request: OutgoingRequest, settings: StreamSettings<'a, S, U, K> },
    /// The request is on its way.
    Dispatching { settings: StreamSettings<'a, S, U, K> },
    /// The stream has been handed over.
    Done,
}

/// The contents of an [`ExchangeAction`].
#[verifier::ext_equal]
pub enum ActionView {
    RecordRequestInput(Seq<Seq<char>>),
    AuthorizeTransportDispatch,
    Dispatch(OutgoingView),
    OpenStream,
}

/// Where a [`StreamExchange`] stands.
#[verifier::ext_equal]
pub enum ExchangeView {
    Recording(OutgoingView),
    Authorizing(OutgoingView),
    Dispatching,
    Done,
}

impl<'a, S, U, K> View for ExchangeAction<'a, S, U, K> {
    type V = ActionView;

    open spec fn view(&self) -> ActionView {
        match self {
            ExchangeAction::RecordRequestInput(items) => ActionView::RecordRequestInput(
                raw_texts(items@),
            ),
            ExchangeAction::AuthorizeTransportDispatch => ActionView::AuthorizeTransportDispatch,
            ExchangeAction::Dispatch(request) => ActionView::Dispatch(request@),
            ExchangeAction::OpenStream(_) => ActionView::OpenStream,
        }
    }
}

impl<'a, S, U, K> View for StreamExchange<'a, S, U, K> {
    type V = ExchangeView;

    open spec fn view(&self) -> ExchangeView {
        match self {
            StreamExchange::Recording { request, .. } => ExchangeView::Recording(request@),
            StreamExchange::Authorizing { request, .. } => ExchangeView::Authorizing(request@),
            StreamExchange::Dispatching { .. } => ExchangeView::Dispatching,
            StreamExchange::Done => ExchangeView::Done,
        }
    }
}

/// How an exchange begins: with a raw sink, its items are recorded first;
/// without one, the request is sent at once.
pub open spec fn exchange_begin(request: OutgoingView, recorded: Option<Seq<Seq<char>>>) -> (
    ExchangeView,
    ActionView,
) {
    match recorded {
        Some(items) => (
            ExchangeView::Recording(request),
            ActionView::RecordRequestInput(items),
        ),
        None => (ExchangeView::Dispatching, ActionView::Dispatch(request)),
    }
}

/// How an exchange goes on after its last action succeeded.
pub open spec fn exchange_next(at: ExchangeView) -> (ExchangeView, ActionView)
    recommends
        at !is Done,
{
    match at {
        ExchangeView::Recording(request) => (
            ExchangeView::Authorizing(request),
            ActionView::AuthorizeTransportDispatch,
        ),
        ExchangeView::Authorizing(request) => (
            ExchangeView::Dispatching,
            ActionView::Dispatch(request),
        ),
        _ => (ExchangeView::Done, ActionView::OpenStream),
    }
}

impl<'a, S, U, K> StreamExchange<'a, S, U, K> {
    /// How the stream will be read once it is open.
    pub open spec fn settings(self) -> StreamSettings<'a, S, U, K>
        recommends
            self !is Done,
    {
        match self {
            StreamExchange::Recording { settings, .. } => settings,
            StreamExchange::Authorizing { settings, .. } => settings,
            StreamExchange::Dispatching { settings } => settings,
            StreamExchange::Done => arbitrary(),
        }
    }

    /// Takes the outcome of the last action and names the next one. A failure
    /// ends the exchange and is handed back as it is.
    pub fn step<E>(self, outcome: Result<(), E>) -> (res: Result<
        (StreamExchange<'a, S, U, K>, ExchangeAction<'a, S, U, K>),
        E,
    >)
        requires
            self !is Done,
        ensures
            outcome is Err ==> res is Err && res->Err_0 == outcome->Err_0,
            outcome is Ok ==> res is Ok,
            res is Ok ==> (res->Ok_0.0@, res->Ok_0.1@) == exchange_next(self@),
            res is Ok && res->Ok_0.0 !is Done ==> res->Ok_0.0.settings() == self.settings(),
            res matches Ok((_, ExchangeAction::OpenStream(settings))) ==> settings
                == self.settings(),
            match self {
                StreamExchange::Recording { request, settings } => outcome is Ok ==> res->Ok_0 == (
                    StreamExchange::Authorizing { request, settings },
                    ExchangeAction::<'a, S, U, K>::AuthorizeTransportDispatch,
                ),
                StreamExchange::Authorizing { request, settings } => outcome is Ok ==> res->Ok_0
                    == (
                    StreamExchange::Dispatching { settings },
                    ExchangeAction::<'a, S, U, K>::Dispatch(request),
                ),
                StreamExchange::Dispatching { settings } => outcome is Ok ==> res->Ok_0 == (
                    StreamExchange::<'a, S, U, K>::Done,
                    ExchangeAction::OpenStream(settings),
                ),
                StreamExchange::Done => true,
            },
    {
        match outcome {
            Err(failure) => Err(failure),
            Ok(_) => match self {
                StreamExchange::Recording { request, settings } => Ok(
                    (
                        StreamExchange::Authorizing { request, settings },
                        ExchangeAction::AuthorizeTransportDispatch,
                    ),
                ),
                StreamExchange::Authorizing { request, settings } => Ok(
                    (StreamExchange::Dispatching { settings }, ExchangeAction::Dispatch(request)),
                ),
                StreamExchange::Dispatching { settings } => Ok(
                    (StreamExchange::Done, ExchangeAction::OpenStream(settings)),
                ),
                StreamExchange::Done => unreached(),
            },
        }
    }
}

/// A request to the Responses endpoint.
pub open spec fn responses_post(
    headers: Map<Seq<char>, Seq<Seq<u8>>>,
    body: Seq<char>,
    compression: Compression,
) -> OutgoingView {
    OutgoingView {
        method: RequestMethod::Post,
        path: "responses"@,
        headers,
        body,
        compression: wire_compression(compression),
    }
}

/// The headers that `options` and `session` ask for.
pub open spec fn option_entries<C, U>(
    options: ResponsesOptions<C, U>,
    session: SessionHeaders,
) -> Map<Seq<char>, Seq<Seq<u8>>> {
    request_entries(
        header_entries(options.extra_headers),
        optional_text(options.thread_id),
        header_entries(session.headers),
        optional_text(session.subagent),
    )
}

/// The headers that `options` and `session` ask for can stand together in any
/// header map.
pub open spec fn options_can_combine<C, U>(
    options: ResponsesOptions<C, U>,
    session: SessionHeaders,
) -> bool {
    can_combine(
        header_entries(options.extra_headers),
        optional_text(options.thread_id),
        header_entries(session.headers),
        optional_text(session.subagent),
    )
}

/// Copies `items` behind what `kept` already holds.
fn retain_onto(kept: &mut Vec<RawJson>, items: &[RawJson]) -> (res: Result<(), ApiError>)
    ensures
        res is Ok,
        raw_texts(final(kept)@) == raw_texts(old(kept)@) + raw_texts(items@),
{
    let mut i: usize = 0;
    assert(raw_texts(items@).take(0) =~= Seq::<Seq<char>>::empty());
    assert(raw_texts(kept@) =~= raw_texts(kept@) + raw_texts(items@).take(0));
    while i < items.len()
        invariant
            i <= items@.len(),
            raw_texts(kept@) == raw_texts(old(kept)@) + raw_texts(items@).take(i as int),
        decreases items.len() - i,
    {
        let ghost before = kept@;
        match items[i].retain() {
            Ok(item) => kept.push(item),
            Err(detail) => return Err(retain_error(detail.as_str())),
        }
        assert(raw_texts(kept@) =~= raw_texts(before).push(items@[i as int]@));
        i = i + 1;
        assert(raw_texts(kept@) =~= raw_texts(old(kept)@) + raw_texts(items@).take(i as int));
    }
    assert(raw_texts(items@).take(i as int) =~= raw_texts(items@));
    Ok(())
}

/// Copies the items of a request: the retained prefix, then the fresh suffix.
pub fn retain_items(retained_prefix: &[RawJson], fresh_suffix: &[RawJson]) -> (res: Result<
    Vec<RawJson>,
    ApiError,
>)
    ensures
        res is Ok,
        raw_texts(res->Ok_0@) == raw_texts(retained_prefix@) + raw_texts(fresh_suffix@),
        res->Ok_0@.len() == retained_prefix@.len() + fresh_suffix@.len(),
        forall|i: int|
            0 <= i < retained_prefix@.len() ==> (#[trigger] res->Ok_0@[i])@ == retained_prefix@[i]@,
        forall|i: int|
            retained_prefix@.len() <= i < res->Ok_0@.len() ==> (#[trigger] res->Ok_0@[i])@
                == fresh_suffix@[i - retained_prefix@.len()]@,
{
    let mut items: Vec<RawJson> = Vec::new();
    assert(raw_texts(items@) =~= Seq::<Seq<char>>::empty());
    retain_onto(&mut items, retained_prefix)?;
    assert(raw_texts(items@) =~= raw_texts(retained_prefix@));
    retain_onto(&mut items, fresh_suffix)?;
    proof {
        let all = raw_texts(items@);
        assert(all.len() == items@.len());
        assert forall|i: int| 0 <= i < items@.len() implies (#[trigger] items@[i])@ == if i
            < retained_prefix@.len() {
            retained_prefix@[i]@
        } else {
            fresh_suffix@[i - retained_prefix@.len()]@
        } by {
            assert(all[i] == items@[i]@);
        }
    }
    Ok(items)
}

impl<T, P, A, R, S> ResponsesClient<T, P, A, R, S> {
    /// `settings` read a stream of this client: for as long as its provider
    /// allows, under its telemetry, with the given turn state and raw sink.
    pub open spec fn reads_with<'a, U, K>(
        self,
        settings: StreamSettings<'a, S, U, K>,
        turn_state: Option<U>,
        raw_sink: Option<K>,
    ) -> bool {
        &&& settings.idle_timeout == self.session.provider.stream_idle_timeout
        &&& match settings.sse_telemetry {
            Some(telemetry) => self.sse_telemetry == Some(*telemetry),
            None => self.sse_telemetry is None,
        }
        &&& settings.turn_state == turn_state
        &&& settings.raw_sink == raw_sink
    }

    /// A client without telemetry.
    pub fn new(transport: T, provider: Provider<P>, auth: A) -> (client: Self)
        ensures
            client.session.transport == transport,
            client.session.provider == provider,
            client.session.auth == auth,
            client.session.request_telemetry is None,
            client.sse_telemetry is None,
    {
        ResponsesClient {
            session: EndpointSession { transport, provider, auth, request_telemetry: None },
            sse_telemetry: None,
        }
    }

    /// The client with the given telemetry in place of what it had.
    pub fn with_telemetry(self, request: Option<R>, sse: Option<S>) -> (client: Self)
        ensures
            client.session == (EndpointSession { request_telemetry: request, ..self.session }),
            client.sse_telemetry == sse,
    {
        ResponsesClient {
            session: EndpointSession {
                transport: self.session.transport,
                provider: self.session.provider,
                auth: self.session.auth,
                request_telemetry: request,
            },
            sse_telemetry: sse,
        }
    }

    /// The endpoint, below the provider's base address.
    pub fn path() -> (path: &'static str)
        ensures
            path@ == "responses"@,
    {
        "responses"
    }

    /// Begins an exchange that sends `request`, its own input included.
    /// `session` is what the session layer makes of the options' session, thread
    /// and source.
    pub fn stream_request<C, U, K>(
        &self,
        request: ResponsesApiRequest,
        options: ResponsesOptions<C, U>,
        session: SessionHeaders,
    ) -> (res: Result<(StreamExchange<'_, S, U, K>, ExchangeAction<'_, S, U, K>), ApiError>)
        requires
            options_can_combine(options, session),
        ensures
            res is Ok,
            (res->Ok_0.0@, res->Ok_0.1@) == exchange_begin(
                responses_post(
                    option_entries(options, session),
                    body_text(request@),
                    options.compression,
                ),
                None,
            ),
            self.reads_with(res->Ok_0.0.settings(), options.turn_state, None),
            ({
                let post = res->Ok_0.1->Dispatch_0;
                let settings = res->Ok_0.0->Dispatching_settings;
                &&& res->Ok_0.1 is Dispatch
                &&& res->Ok_0.0 is Dispatching
                &&& post.method == RequestMethod::Post
                &&& post.path@ == "responses"@
                &&& header_entries(post.headers) == request_entries(
                    header_entries(options.extra_headers),
                    optional_text(options.thread_id),
                    header_entries(session.headers),
                    optional_text(session.subagent),
                )
                &&& post.body@ == body_text(request@)
                &&& post.compression == RequestCompression::Zstd <==> options.compression
                    == Compression::Zstd
                &&& settings.idle_timeout == self.session.provider.stream_idle_timeout
                &&& settings.sse_telemetry is Some <==> self.sse_telemetry is Some
                &&& settings.sse_telemetry is Some ==> *settings.sse_telemetry->Some_0
                    == self.sse_telemetry->Some_0
                &&& settings.turn_state == options.turn_state
                &&& settings.raw_sink is None
            }),
    {
        match self.try_stream_request(request, options, session) {
            Some(res) => res,
            None => unreached(),
        }
    }

    /// Begins an exchange that sends `request` with `retained_prefix` followed by
    /// `fresh_suffix` as its input. The items go out as the texts they are. With
    /// a raw sink, the exchange first has the sink record the items and then asks
    /// it for leave to send.
    pub fn stream_request_with_raw_input<C, U, K>(
        &self,
        request: &ResponsesApiRequest,
        retained_prefix: &[RawJson],
        fresh_suffix: &[RawJson],
        options: ResponsesOptions<C, U>,
        session: SessionHeaders,
        raw_sink: Option<K>,
    ) -> (res: Result<(StreamExchange<'_, S, U, K>, ExchangeAction<'_, S, U, K>), ApiError>)
        requires
            options_can_combine(options, session),
        ensures
            res is Ok,
            ({
                let input = raw_texts(retained_prefix@) + raw_texts(fresh_suffix@);
                (res->Ok_0.0@, res->Ok_0.1@) == exchange_begin(
                    responses_post(
                        option_entries(options, session),
                        body_text(RequestView { input, ..request@ }),
                        options.compression,
                    ),
                    if raw_sink is Some {
                        Some(input)
                    } else {
                        None
                    },
                )
            }),
            self.reads_with(res->Ok_0.0.settings(), options.turn_state, raw_sink),
            raw_sink is None ==> ({
                let post = res->Ok_0.1->Dispatch_0;
                let settings = res->Ok_0.0->Dispatching_settings;
                &&& res->Ok_0.1 is Dispatch
                &&& res->Ok_0.0 is Dispatching
                &&& post.method == RequestMethod::Post
                &&& post.path@ == "responses"@
                &&& header_entries(post.headers) == request_entries(
                    header_entries(options.extra_headers),
                    optional_text(options.thread_id),
                    header_entries(session.headers),
                    optional_text(session.subagent),
                )
                &&& post.body@ == body_text(RequestView {
                    input: raw_texts(retained_prefix@) + raw_texts(fresh_suffix@),
                    ..request@
                })
                &&& post.compression == RequestCompression::Zstd <==> options.compression
                    == Compression::Zstd
                &&& settings.idle_timeout == self.session.provider.stream_idle_timeout
                &&& settings.sse_telemetry is Some <==> self.sse_telemetry is Some
                &&& settings.sse_telemetry is Some ==> *settings.sse_telemetry->Some_0
                    == self.sse_telemetry->Some_0
                &&& settings.turn_state == options.turn_state
                &&& settings.raw_sink is None
            }),
            raw_sink is Some ==> ({
                let items = res->Ok_0.1->RecordRequestInput_0;
                let post = res->Ok_0.0->Recording_request;
                let settings = res->Ok_0.0->Recording_settings;
                &&& res->Ok_0.1 is RecordRequestInput
                &&& res->Ok_0.0 is Recording
                &&& items@.len() == retained_prefix@.len() + fresh_suffix@.len()
                &&& forall|i: int|
                    0 <= i < retained_prefix@.len() ==> (#[trigger] items@[i])@
                        == retained_prefix@[i]@
                &&& forall|i: int|
                    retained_prefix@.len() <= i < items@.len() ==> (#[trigger] items@[i])@
                        == fresh_suffix@[i - retained_prefix@.len()]@
                &&& post.method == RequestMethod::Post
                &&& post.path@ == "responses"@
                &&& header_entries(post.headers) == request_entries(
                    header_entries(options.extra_headers),
                    optional_text(options.thread_id),
                    header_entries(session.headers),
                    optional_text(session.subagent),
                )
                &&& post.body@ == body_text(RequestView {
                    input: raw_texts(retained_prefix@) + raw_texts(fresh_suffix@),
                    ..request@
                })
                &&& post.compression == RequestCompression::Zstd <==> options.compression
                    == Compression::Zstd
                &&& settings.idle_timeout == self.session.provider.stream_idle_timeout
                &&& settings.sse_telemetry is Some <==> self.sse_telemetry is Some
                &&& settings.sse_telemetry is Some ==> *settings.sse_telemetry->Some_0
                    == self.sse_telemetry->Some_0
                &&& settings.turn_state == options.turn_state
                &&& settings.raw_sink == raw_sink
            }),
    {
        match self.try_stream_request_with_raw_input(
            request,
            retained_prefix,
            fresh_suffix,
            options,
            session,
            raw_sink,
        ) {
            Some(res) => res,
            None => unreached(),
        }
    }

    /// As [`ResponsesClient::stream_request`], for any headers. There is no
    /// exchange where a header map that has to grow cannot.
    pub fn try_stream_request<C, U, K>(
        &self,
        request: ResponsesApiRequest,
        options: ResponsesOptions<C, U>,
        session: SessionHeaders,
    ) -> (res: Option<
        Result<(StreamExchange<'_, S, U, K>, ExchangeAction<'_, S, U, K>), ApiError>,
    >)
        ensures
            options_can_combine(options, session) ==> res is Some,
            res is Some ==> res->Some_0 is Ok,
            res is Some ==> (res->Some_0->Ok_0.0@, res->Some_0->Ok_0.1@) == exchange_begin(
                responses_post(
                    option_entries(options, session),
                    body_text(request@),
                    options.compression,
                ),
                None,
            ),
            res is Some ==> self.reads_with(
                res->Some_0->Ok_0.0.settings(),
                options.turn_state,
                None,
            ),
            res is Some ==> ({
                let post = res->Some_0->Ok_0.1->Dispatch_0;
                let settings = res->Some_0->Ok_0.0->Dispatching_settings;
                &&& res->Some_0->Ok_0.1 is Dispatch
                &&& res->Some_0->Ok_0.0 is Dispatching
                &&& post.method == RequestMethod::Post
                &&& post.path@ == "responses"@
                &&& header_entries(post.headers) == request_entries(
                    header_entries(options.extra_headers),
                    optional_text(options.thread_id),
                    header_entries(session.headers),
                    optional_text(session.subagent),
                )
                &&& post.body@ == body_text(request@)
                &&& post.compression == RequestCompression::Zstd <==> options.compression
                    == Compression::Zstd
                &&& settings.idle_timeout == self.session.provider.stream_idle_timeout
                &&& settings.sse_telemetry is Some <==> self.sse_telemetry is Some
                &&& settings.sse_telemetry is Some ==> *settings.sse_telemetry->Some_0
                    == self.sse_telemetry->Some_0
                &&& settings.turn_state == options.turn_state
                &&& settings.raw_sink is None
            }),
    {
        let body = match request.encode() {
            Ok(body) => body,
            Err(detail) => return Some(Err(encode_error(detail.as_str()))),
        };
        match request_headers(options.extra_headers, &options.thread_id, session) {
            Some(headers) => Some(
                Ok(self.stream_encoded(body, headers, options.compression, options.turn_state)),
            ),
            None => None,
        }
    }

    /// As [`ResponsesClient::stream_request_with_raw_input`], for any headers.
    /// There is no exchange where a header map that has to grow cannot.
    pub fn try_stream_request_with_raw_input<C, U, K>(
        &self,
        request: &ResponsesApiRequest,
        retained_prefix: &[RawJson],
        fresh_suffix: &[RawJson],
        options: ResponsesOptions<C, U>,
        session: SessionHeaders,
        raw_sink: Option<K>,
    ) -> (res: Option<
        Result<(StreamExchange<'_, S, U, K>, ExchangeAction<'_, S, U, K>), ApiError>,
    >)
        ensures
            options_can_combine(options, session) ==> res is Some,
            res is Some ==> res->Some_0 is Ok,
            res is Some ==> ({
                let input = raw_texts(retained_prefix@) + raw_texts(fresh_suffix@);
                (res->Some_0->Ok_0.0@, res->Some_0->Ok_0.1@) == exchange_begin(
                    responses_post(
                        option_entries(options, session),
                        body_text(RequestView { input, ..request@ }),
                        options.compression,
                    ),
                    if raw_sink is Some {
                        Some(input)
                    } else {
                        None
                    },
                )
            }),
            res is Some ==> self.reads_with(
                res->Some_0->Ok_0.0.settings(),
                options.turn_state,
                raw_sink,
            ),
            res is Some && raw_sink is None ==> ({
                let post = res->Some_0->Ok_0.1->Dispatch_0;
                let settings = res->Some_0->Ok_0.0->Dispatching_settings;
                &&& res->Some_0->Ok_0.1 is Dispatch
                &&& res->Some_0->Ok_0.0 is Dispatching
                &&& post.method == RequestMethod::Post
                &&& post.path@ == "responses"@
                &&& header_entries(post.headers) == request_entries(
                    header_entries(options.extra_headers),
                    optional_text(options.thread_id),
                    header_entries(session.headers),
                    optional_text(session.subagent),
                )
                &&& post.body@ == body_text(RequestView {
                    input: raw_texts(retained_prefix@) + raw_texts(fresh_suffix@),
                    ..request@
                })
                &&& post.compression == RequestCompression::Zstd <==> options.compression
                    == Compression::Zstd
                &&& settings.idle_timeout == self.session.provider.stream_idle_timeout
                &&& settings.sse_telemetry is Some <==> self.sse_telemetry is Some
                &&& settings.sse_telemetry is Some ==> *settings.sse_telemetry->Some_0
                    == self.sse_telemetry->Some_0
                &&& settings.turn_state == options.turn_state
                &&& settings.raw_sink is None
            }),
            res is Some && raw_sink is Some ==> ({
                let items = res->Some_0->Ok_0.1->RecordRequestInput_0;
                let post = res->Some_0->Ok_0.0->Recording_request;
                let settings = res->Some_0->Ok_0.0->Recording_settings;
                &&& res->Some_0->Ok_0.1 is RecordRequestInput
                &&& res->Some_0->Ok_0.0 is Recording
                &&& items@.len() == retained_prefix@.len() + fresh_suffix@.len()
                &&& forall|i: int|
                    0 <= i < retained_prefix@.len() ==> (#[trigger] items@[i])@
                        == retained_prefix@[i]@
                &&& forall|i: int|
                    retained_prefix@.len() <= i < items@.len() ==> (#[trigger] items@[i])@
                        == fresh_suffix@[i - retained_prefix@.len()]@
                &&& post.method == RequestMethod::Post
                &&& post.path@ == "responses"@
                &&& header_entries(post.headers) == request_entries(
                    header_entries(options.extra_headers),
                    optional_text(options.thread_id),
                    header_entries(session.headers),
                    optional_text(session.subagent),
                )
                &&& post.body@ == body_text(RequestView {
                    input: raw_texts(retained_prefix@) + raw_texts(fresh_suffix@),
                    ..request@
                })
                &&& post.compression == RequestCompression::Zstd <==> options.compression
                    == Compression::Zstd
                &&& settings.idle_timeout == self.session.provider.stream_idle_timeout
                &&& settings.sse_telemetry is Some <==> self.sse_telemetry is Some
                &&& settings.sse_telemetry is Some ==> *settings.sse_telemetry->Some_0
                    == self.sse_telemetry->Some_0
                &&& settings.turn_state == options.turn_state
                &&& settings.raw_sink == raw_sink
            }),
    {
        let raw = RawResponsesApiRequest::new(request, retained_prefix, fresh_suffix);
        let body = match raw.encode() {
            Ok(body) => body,
            Err(detail) => return Some(Err(raw_encode_error(detail.as_str()))),
        };
        let recorded = match &raw_sink {
            Some(_) => match retain_items(retained_prefix, fresh_suffix) {
                Ok(items) => Some(items),
                Err(failure) => return Some(Err(failure)),
            },
            None => None,
        };
        match request_headers(options.extra_headers, &options.thread_id, session) {
            Some(headers) => Some(
                Ok(
                    self.stream_encoded_with_raw_sink(
                        body,
                        headers,
                        options.compression,
                        options.turn_state,
                        raw_sink,
                        recorded,
                    ),
                ),
            ),
            None => None,
        }
    }

    /// Begins an exchange that sends a JSON document.
    pub fn stream<U, K>(
        &self,
        body: serde_json::Value,
        extra_headers: http::HeaderMap,
        compression: Compression,
        turn_state: Option<U>,
    ) -> (res: Result<(StreamExchange<'_, S, U, K>, ExchangeAction<'_, S, U, K>), ApiError>)
        ensures
            res is Ok,
            (res->Ok_0.0@, res->Ok_0.1@) == exchange_begin(
                responses_post(header_entries(extra_headers), document_text(body), compression),
                None,
            ),
            self.reads_with(res->Ok_0.0.settings(), turn_state, None),
            res->Ok_0.1 is Dispatch,
            res->Ok_0.0 is Dispatching,
            ({
                let request = res->Ok_0.1->Dispatch_0;
                let settings = res->Ok_0.0->Dispatching_settings;
                &&& request.method == RequestMethod::Post
                &&& request.path@ == "responses"@
                &&& request.headers == extra_headers
                &&& request.body@ == document_text(body)
                &&& request.compression == RequestCompression::Zstd <==> compression
                    == Compression::Zstd
                &&& settings.idle_timeout == self.session.provider.stream_idle_timeout
                &&& settings.sse_telemetry is Some <==> self.sse_telemetry is Some
                &&& settings.sse_telemetry is Some ==> *settings.sse_telemetry->Some_0
                    == self.sse_telemetry->Some_0
                &&& settings.turn_state == turn_state
                &&& settings.raw_sink is None
            }),
    {
        let body = match serialize_value(&body) {
            Ok(text) => EncodedJsonBody::from_text(text),
            Err(detail) => return Err(encode_error(detail.as_str())),
        };
        Ok(self.stream_encoded(body, extra_headers, compression, turn_state))
    }

    /// Begins an exchange that sends an encoded body without a raw sink.
    pub fn stream_encoded<U, K>(
        &self,
        body: EncodedJsonBody,
        extra_headers: http::HeaderMap,
        compression: Compression,
        turn_state: Option<U>,
    ) -> (begun: (StreamExchange<'_, S, U, K>, ExchangeAction<'_, S, U, K>))
        ensures
            (begun.0@, begun.1@) == exchange_begin(
                responses_post(header_entries(extra_headers), body@, compression),
                None,
            ),
            self.reads_with(begun.0.settings(), turn_state, None),
            begun.1 is Dispatch,
            begun.0 is Dispatching,
            ({
                let request = begun.1->Dispatch_0;
                let settings = begun.0->Dispatching_settings;
                &&& request.method == RequestMethod::Post
                &&& request.path@ == "responses"@
                &&& request.headers == extra_headers
                &&& request.body == body
                &&& request.compression == RequestCompression::Zstd <==> compression
                    == Compression::Zstd
                &&& settings.idle_timeout == self.session.provider.stream_idle_timeout
                &&& settings.sse_telemetry is Some <==> self.sse_telemetry is Some
                &&& settings.sse_telemetry is Some ==> *settings.sse_telemetry->Some_0
                    == self.sse_telemetry->Some_0
                &&& settings.turn_state == turn_state
                &&& settings.raw_sink is None
            }),
    {
        self.stream_encoded_with_raw_sink(body, extra_headers, compression, turn_state, None, None)
    }

    /// Begins an exchange that sends an encoded body, after `recorded` has gone
    /// to the raw sink.
    pub fn stream_encoded_with_raw_sink<U, K>(
        &self,
        body: EncodedJsonBody,
        extra_headers: http::HeaderMap,
        compression: Compression,
        turn_state: Option<U>,
        raw_sink: Option<K>,
        recorded: Option<Vec<RawJson>>,
    ) -> (begun: (StreamExchange<'_, S, U, K>, ExchangeAction<'_, S, U, K>))
        ensures
            (begun.0@, begun.1@) == exchange_begin(
                responses_post(header_entries(extra_headers), body@, compression),
                match recorded {
                    Some(items) => Some(raw_texts(items@)),
                    None => None,
                },
            ),
            self.reads_with(begun.0.settings(), turn_state, raw_sink),
            recorded is Some ==> {
                &&& begun.1 is RecordRequestInput
                &&& begun.1->RecordRequestInput_0 == recorded->Some_0
                &&& begun.0 is Recording
            },
            recorded is None ==> begun.1 is Dispatch && begun.0 is Dispatching,
            ({
                let (request, settings) = match begun {
                    (StreamExchange::Recording { request, settings }, _) => (request, settings),
                    (exchange, action) => (action->Dispatch_0, exchange->Dispatching_settings),
                };
                &&& request.method == RequestMethod::Post
                &&& request.path@ == "responses"@
                &&& request.headers == extra_headers
                &&& request.body == body
                &&& request.compression == RequestCompression::Zstd <==> compression
                    == Compression::Zstd
                &&& settings.idle_timeout == self.session.provider.stream_idle_timeout
                &&& settings.sse_telemetry is Some <==> self.sse_telemetry is Some
                &&& settings.sse_telemetry is Some ==> *settings.sse_telemetry->Some_0
                    == self.sse_telemetry->Some_0
                &&& settings.turn_state == turn_state
                &&& settings.raw_sink == raw_sink
            }),
    {
        let request_compression = match compression {
            Compression::Identity => RequestCompression::Identity,
            Compression::Zstd => RequestCompression::Zstd,
        };
        let request = OutgoingRequest {
            method: RequestMethod::Post,
            path: Self::path(),
            headers: extra_headers,
            body,
            compression: request_compression,
        };
        let settings = StreamSettings {
            idle_timeout: self.session.provider.stream_idle_timeout,
            sse_telemetry: self.sse_telemetry.as_ref(),
            turn_state,
            raw_sink,
        };
        match recorded {
            Some(items) => (
                StreamExchange::Recording { request, settings },
                ExchangeAction::RecordRequestInput(items),
            ),
            None => (
                StreamExchange::Dispatching { settings },
                ExchangeAction::Dispatch(request),
            ),
        }
    }
}

} // verus!
