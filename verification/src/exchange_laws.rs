//! What holds of every exchange that opens a stream, however its actions go.

use vstd::prelude::*;
use vstd::utf8::encode_utf8;

use crate::body_laws::{body_keeps_every_item, input_offset};
use crate::client::{
    exchange_begin, exchange_next, option_entries, options_can_combine, responses_post, wire_compression, ActionView,
    Compression, ExchangeAction, ExchangeView, OutgoingRequest, OutgoingView, RequestCompression,
    RequestMethod, ResponsesClient, ResponsesOptions, StreamExchange, StreamSettings,
};
use crate::headers::{can_combine, header_entries, is_header_text, no_entries, request_entries};
use crate::headers::{each_header_has_one_source, SessionHeaders};
use crate::json::{document_text, optional_text};
use crate::request::{body_text, RequestView};

verus! {

/// The actions that an exchange goes on to name, given whether each action
/// succeeded. A failure ends the exchange.
pub open spec fn exchange_run(at: ExchangeView, outcomes: Seq<bool>) -> Seq<ActionView>
    decreases outcomes.len(),
{
    if outcomes.len() == 0 || at is Done || !outcomes[0] {
        seq![]
    } else {
        let (next, action) = exchange_next(at);
        seq![action] + exchange_run(next, outcomes.drop_first())
    }
}

/// All actions of an exchange.
pub open spec fn exchange_actions(
    request: OutgoingView,
    recorded: Option<Seq<Seq<char>>>,
    outcomes: Seq<bool>,
) -> Seq<ActionView> {
    let (at, first) = exchange_begin(request, recorded);
    seq![first] + exchange_run(at, outcomes)
}

/// All actions that an exchange can have, in their order.
pub open spec fn full_exchange(request: OutgoingView, recorded: Option<Seq<Seq<char>>>) -> Seq<
    ActionView,
> {
    match recorded {
        Some(items) => seq![
            ActionView::RecordRequestInput(items),
            ActionView::AuthorizeTransportDispatch,
            ActionView::Dispatch(request),
            ActionView::OpenStream,
        ],
        None => seq![ActionView::Dispatch(request), ActionView::OpenStream],
    }
}

/// How many actions succeeded before the first failure.
pub open spec fn successes(outcomes: Seq<bool>) -> nat
    decreases outcomes.len(),
{
    if outcomes.len() == 0 || !outcomes[0] {
        0
    } else {
        1 + successes(outcomes.drop_first())
    }
}

proof fn successes_are_a_prefix(outcomes: Seq<bool>)
    ensures
        successes(outcomes) <= outcomes.len(),
        forall|i: int| 0 <= i < successes(outcomes) ==> #[trigger] outcomes[i],
        successes(outcomes) < outcomes.len() ==> !outcomes[successes(outcomes) as int],
    decreases outcomes.len(),
{
    if outcomes.len() > 0 && outcomes[0] {
        let rest = outcomes.drop_first();
        successes_are_a_prefix(rest);
        assert forall|i: int| 0 <= i < successes(outcomes) implies #[trigger] outcomes[i] by {
            if i > 0 {
                assert(rest[i - 1]);
            }
        }
        if successes(outcomes) < outcomes.len() {
            assert(!rest[successes(rest) as int]);
        }
    }
}

/// An exchange names its actions in one fixed order and stops behind the first
/// that fails: each success brings exactly the next action, until the stream is
/// open.
pub proof fn exchange_follows_its_order(
    request: OutgoingView,
    recorded: Option<Seq<Seq<char>>>,
    outcomes: Seq<bool>,
)
    ensures
        ({
            let full = full_exchange(request, recorded);
            let count = 1 + successes(outcomes);
            exchange_actions(request, recorded, outcomes) == full.take(
                if count <= full.len() {
                    count as int
                } else {
                    full.len() as int
                },
            )
        }),
{
    reveal_with_fuel(exchange_run, 5);
    reveal_with_fuel(successes, 5);
    let full = full_exchange(request, recorded);
    let count = 1 + successes(outcomes);
    let end = if count <= full.len() {
        count as int
    } else {
        full.len() as int
    };
    assert(exchange_actions(request, recorded, outcomes) =~= full.take(end));
}

/// With a raw sink, a request is sent only after the sink has recorded its items
/// and has given leave, and what is sent is the request that was announced.
pub proof fn sent_only_with_leave(
    request: OutgoingView,
    items: Seq<Seq<char>>,
    outcomes: Seq<bool>,
    k: int,
)
    requires
        0 <= k < exchange_actions(request, Some(items), outcomes).len(),
        exchange_actions(request, Some(items), outcomes)[k] is Dispatch,
    ensures
        k == 2,
        outcomes.len() >= 2,
        outcomes[0],
        outcomes[1],
        exchange_actions(request, Some(items), outcomes)[0] == ActionView::RecordRequestInput(
            items,
        ),
        exchange_actions(request, Some(items), outcomes)[1]
            == ActionView::AuthorizeTransportDispatch,
        exchange_actions(request, Some(items), outcomes)[2] == ActionView::Dispatch(request),
{
    exchange_follows_its_order(request, Some(items), outcomes);
    successes_are_a_prefix(outcomes);
}

/// A request is sent at most once: it is never retried.
pub proof fn sent_at_most_once(
    request: OutgoingView,
    recorded: Option<Seq<Seq<char>>>,
    outcomes: Seq<bool>,
    i: int,
    j: int,
)
    requires
        0 <= i < exchange_actions(request, recorded, outcomes).len(),
        0 <= j < exchange_actions(request, recorded, outcomes).len(),
        exchange_actions(request, recorded, outcomes)[i] is Dispatch,
        exchange_actions(request, recorded, outcomes)[j] is Dispatch,
    ensures
        i == j,
{
    exchange_follows_its_order(request, recorded, outcomes);
}

/// After an action that failed, nothing more is asked for.
pub proof fn failure_ends_exchange(
    request: OutgoingView,
    recorded: Option<Seq<Seq<char>>>,
    outcomes: Seq<bool>,
    i: int,
)
    requires
        0 <= i < outcomes.len(),
        !outcomes[i],
    ensures
        exchange_actions(request, recorded, outcomes).len() <= i + 1,
{
    exchange_follows_its_order(request, recorded, outcomes);
    successes_are_a_prefix(outcomes);
}

/// A stream is opened only right after its request was sent and accepted.
pub proof fn opened_only_after_dispatch(
    request: OutgoingView,
    recorded: Option<Seq<Seq<char>>>,
    outcomes: Seq<bool>,
    k: int,
)
    requires
        0 <= k < exchange_actions(request, recorded, outcomes).len(),
        exchange_actions(request, recorded, outcomes)[k] is OpenStream,
    ensures
        1 <= k <= outcomes.len(),
        exchange_actions(request, recorded, outcomes)[k - 1] == ActionView::Dispatch(request),
        outcomes[k - 1],
{
    exchange_follows_its_order(request, recorded, outcomes);
    successes_are_a_prefix(outcomes);
}

/// Where every action succeeds, the stream is opened.
pub proof fn success_opens_the_stream(
    request: OutgoingView,
    recorded: Option<Seq<Seq<char>>>,
    outcomes: Seq<bool>,
)
    requires
        forall|i: int| 0 <= i < outcomes.len() ==> #[trigger] outcomes[i],
        outcomes.len() + 1 >= full_exchange(request, recorded).len(),
    ensures
        exchange_actions(request, recorded, outcomes) == full_exchange(request, recorded),
{
    exchange_follows_its_order(request, recorded, outcomes);
    successes_are_a_prefix(outcomes);
    let full = full_exchange(request, recorded);
    assert(full.take(full.len() as int) =~= full);
}

/// What the raw sink records is what is sent: each recorded item stands in the
/// body of the request, character for character.
pub proof fn recorded_items_are_sent(
    r: RequestView,
    prefix: Seq<Seq<char>>,
    suffix: Seq<Seq<char>>,
    headers: Map<Seq<char>, Seq<Seq<u8>>>,
    compression: Compression,
    i: int,
)
    requires
        0 <= i < prefix.len() + suffix.len(),
    ensures
        ({
            let sent = RequestView { input: prefix + suffix, ..r };
            let request = responses_post(headers, body_text(sent), compression);
            let actions = exchange_actions(request, Some(prefix + suffix), seq![true, true]);
            &&& actions.len() == 3
            &&& actions[0] matches ActionView::RecordRequestInput(items)
            &&& items.len() == prefix.len() + suffix.len()
            &&& actions[2] matches ActionView::Dispatch(out)
            &&& out.body.subrange(
                input_offset(sent, i),
                input_offset(sent, i) + items[i].len(),
            ) == items[i]
        }),
{
    let sent = RequestView { input: prefix + suffix, ..r };
    let request = responses_post(headers, body_text(sent), compression);
    body_keeps_every_item(sent, i);
    exchange_follows_its_order(request, Some(prefix + suffix), seq![true, true]);
    reveal_with_fuel(successes, 4);
}

/// A JSON document is sent as a request without session, thread and subagent is:
/// by the same method, to the same endpoint, with the same headers and
/// compression. Only the text of the body is the document's own, and where that
/// is the request's, so is everything that is sent.
pub proof fn documents_are_sent_like_requests(
    r: RequestView,
    document: serde_json::Value,
    extra: Map<Seq<char>, Seq<Seq<u8>>>,
    compression: Compression,
)
    ensures
        ({
            let headers = request_entries(extra, None, no_entries(), None);
            let as_request = responses_post(headers, body_text(r), compression);
            let as_document = responses_post(extra, document_text(document), compression);
            &&& as_document == (OutgoingView { body: document_text(document), ..as_request })
            &&& document_text(document) == body_text(r) ==> exchange_begin(as_document, None)
                == exchange_begin(as_request, None)
        }),
{
    assert(request_entries(extra, None, no_entries(), None) =~= extra);
}

/// Where every action succeeds, an exchange with a raw sink has the items
/// recorded, asks for leave, sends the request and opens the stream, and one
/// without a sink sends the request and opens the stream: each once, in this
/// order, and nothing else.
pub proof fn successful_exchanges_do_this(
    request: OutgoingView,
    items: Seq<Seq<char>>,
    outcomes: Seq<bool>,
)
    requires
        outcomes.len() >= 3,
        forall|i: int| 0 <= i < outcomes.len() ==> #[trigger] outcomes[i],
    ensures
        exchange_actions(request, Some(items), outcomes) == seq![
            ActionView::RecordRequestInput(items),
            ActionView::AuthorizeTransportDispatch,
            ActionView::Dispatch(request),
            ActionView::OpenStream,
        ],
        exchange_actions(request, None, outcomes) == seq![
            ActionView::Dispatch(request),
            ActionView::OpenStream,
        ],
{
    success_opens_the_stream(request, Some(items), outcomes);
    success_opens_the_stream(request, None, outcomes);
}

/// How often an exchange acts is a matter of how many actions succeed: `n`
/// successes and then a failure bring `n + 1` actions, up to all of them.
pub proof fn actions_follow_successes(
    request: OutgoingView,
    recorded: Option<Seq<Seq<char>>>,
    outcomes: Seq<bool>,
    n: int,
)
    requires
        0 <= n <= outcomes.len(),
        forall|i: int| 0 <= i < n ==> #[trigger] outcomes[i],
        n < outcomes.len() ==> !outcomes[n],
    ensures
        recorded is Some ==> exchange_actions(request, recorded, outcomes).len() == if n < 3 {
            n + 1
        } else {
            4
        },
        recorded is None ==> exchange_actions(request, recorded, outcomes).len() == if n < 1 {
            n + 1
        } else {
            2
        },
{
    exchange_follows_its_order(request, recorded, outcomes);
    successes_are_a_prefix(outcomes);
    let found = successes(outcomes);
    if found < n {
        assert(outcomes[found as int]);
    }
    if n < found {
        assert(outcomes[n]);
    }
}

/// What is posted is what was given: to the Responses endpoint, with these
/// headers, this body and this compression.
pub proof fn posts_hold_what_was_given(
    headers: Map<Seq<char>, Seq<Seq<u8>>>,
    body: Seq<char>,
    compression: Compression,
)
    ensures
        responses_post(headers, body, compression).method == RequestMethod::Post,
        responses_post(headers, body, compression).path == "responses"@,
        responses_post(headers, body, compression).headers == headers,
        responses_post(headers, body, compression).body == body,
        responses_post(headers, body, compression).compression == RequestCompression::Zstd
            <==> compression == Compression::Zstd,
        wire_compression(compression) == RequestCompression::Identity <==> compression
            == Compression::Identity,
{
}

/// A request in its contents is the request in its parts.
pub proof fn outgoing_contents_are_its_parts(request: OutgoingRequest)
    ensures
        request@.method == request.method,
        request@.path == request.path@,
        request@.headers == header_entries(request.headers),
        request@.body == request.body@,
        request@.compression == request.compression,
{
}

/// An action in its contents is the action in its parts.
pub proof fn action_contents_are_its_parts<'a, S, U, K>(action: ExchangeAction<'a, S, U, K>)
    ensures
        action matches ExchangeAction::RecordRequestInput(items) ==> {
            &&& action@ is RecordRequestInput
            &&& action@->RecordRequestInput_0.len() == items@.len()
            &&& forall|i: int|
                0 <= i < items@.len() ==> #[trigger] action@->RecordRequestInput_0[i]
                    == items@[i]@
        },
        action is AuthorizeTransportDispatch <==> action@ is AuthorizeTransportDispatch,
        action matches ExchangeAction::Dispatch(request) ==> action@ == ActionView::Dispatch(
            request@,
        ),
        action is OpenStream <==> action@ is OpenStream,
{
}

/// An exchange stands where its variant says, with the request and the settings
/// that it holds.
pub proof fn exchange_contents_are_its_parts<'a, S, U, K>(exchange: StreamExchange<'a, S, U, K>)
    ensures
        exchange matches StreamExchange::Recording { request, settings } ==> exchange@
            == ExchangeView::Recording(request@) && exchange.settings() == settings,
        exchange matches StreamExchange::Authorizing { request, settings } ==> exchange@
            == ExchangeView::Authorizing(request@) && exchange.settings() == settings,
        exchange matches StreamExchange::Dispatching { settings } ==> exchange@
            == ExchangeView::Dispatching && exchange.settings() == settings,
        exchange is Done <==> exchange@ is Done,
{
}

/// A stream is read for as long as the client's provider allows, under the
/// client's telemetry if it has any, and with the turn state and the raw sink
/// that the caller gave.
pub proof fn streams_are_read_as_the_client_says<'a, T, P, A, R, S, U, K>(
    client: ResponsesClient<T, P, A, R, S>,
    settings: StreamSettings<'a, S, U, K>,
    turn_state: Option<U>,
    raw_sink: Option<K>,
)
    ensures
        client.reads_with(settings, turn_state, raw_sink) <==> {
            &&& settings.idle_timeout == client.session.provider.stream_idle_timeout
            &&& settings.sse_telemetry is Some <==> client.sse_telemetry is Some
            &&& settings.sse_telemetry is Some ==> *settings.sse_telemetry->Some_0
                == client.sse_telemetry->Some_0
            &&& settings.turn_state == turn_state
            &&& settings.raw_sink == raw_sink
        },
{
}

/// The headers of a request are those that its options and its session name. For
/// each name the first of these that speaks of it decides: the subagent's label,
/// the session's headers, the thread, the extra headers.
pub proof fn options_name_the_headers<C, U>(
    options: ResponsesOptions<C, U>,
    session: SessionHeaders,
    name: Seq<char>,
)
    ensures
        ({
            let all = option_entries(options, session);
            let own = header_entries(session.headers);
            let extra = header_entries(options.extra_headers);
            let labelled = name == "x-openai-subagent"@ && session.subagent is Some
                && is_header_text(session.subagent->Some_0@);
            let threaded = name == "x-client-request-id"@ && options.thread_id is Some
                && is_header_text(options.thread_id->Some_0@);
            &&& all.contains_key(name) <==> labelled || own.contains_key(name) || threaded
                || extra.contains_key(name)
            &&& labelled ==> all[name] == seq![encode_utf8(session.subagent->Some_0@)]
            &&& !labelled && own.contains_key(name) ==> all[name] == own[name]
            &&& !labelled && !own.contains_key(name) && threaded ==> all[name] == seq![
                encode_utf8(options.thread_id->Some_0@),
            ]
            &&& !labelled && !own.contains_key(name) && !threaded && extra.contains_key(name)
                ==> all[name] == extra[name]
        }),
        options_can_combine(options, session) <==> can_combine(
            header_entries(options.extra_headers),
            match options.thread_id {
                Some(text) => Some(text@),
                None => None,
            },
            header_entries(session.headers),
            match session.subagent {
                Some(text) => Some(text@),
                None => None,
            },
        ),
{
    each_header_has_one_source(
        header_entries(options.extra_headers),
        optional_text(options.thread_id),
        header_entries(session.headers),
        optional_text(session.subagent),
        name,
    );
}

} // verus!
