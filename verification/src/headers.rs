//! The headers that go with a Responses request.

use vstd::pervasive::unreached;
use vstd::prelude::*;
use vstd::utf8::encode_utf8;

use crate::json::optional_text;

verus! {

/// A header map of the `http` crate.
#[verifier::external_type_specification]
#[verifier::external_body]
#[verifier::reject_recursive_types(T)]
pub struct ExHeaderMap<T>(http::HeaderMap<T>);

/// A header name of the `http` crate.
#[verifier::external_type_specification]
#[verifier::external_body]
pub struct ExHeaderName(http::HeaderName);

/// A header value of the `http` crate.
#[verifier::external_type_specification]
#[verifier::external_body]
pub struct ExHeaderValue(http::HeaderValue);

/// The refusal of a text that cannot be a header value.
#[verifier::external_type_specification]
#[verifier::external_body]
pub struct ExInvalidHeaderValue(http::header::InvalidHeaderValue);

/// The refusal of a text that cannot be a header name, or of a header map that
/// cannot grow to hold one more.
#[verifier::external_type_specification]
#[verifier::external_body]
pub struct ExInvalidHeaderName(http::header::InvalidHeaderName);

/// The refusal of a header map that cannot grow.
#[verifier::external_type_specification]
#[verifier::external_body]
pub struct ExMaxSizeReached(http::header::MaxSizeReached);

/// The contents of a header map: for each lower-case name the bytes of its
/// values, in their order.
pub uninterp spec fn header_entries(
    headers: http::HeaderMap<http::HeaderValue>,
) -> Map<Seq<char>, Seq<Seq<u8>>>;

/// The text of a header name, in lower case.
pub uninterp spec fn header_name_text(name: http::HeaderName) -> Seq<char>;

/// The bytes of a header value.
pub uninterp spec fn header_value_bytes(value: http::HeaderValue) -> Seq<u8>;

/// A header map with up to this many names takes one more without fail, however
/// it came about: a map that has seen many colliding names tries to grow at a
/// fifth of its largest table, which has 32768 slots. A map with more names may
/// still take another one. Whether it does depends on how its names happen to
/// collide.
pub const MAX_HEADER_NAMES: usize = 6553;

/// A character of a header name in lower case.
pub open spec fn is_header_name_char(c: char) -> bool {
    ||| 'a' <= c <= 'z' || '0' <= c <= '9'
    ||| c == '!' || c == '"' || c == '#' || c == '$' || c == '%' || c == '&' || c == '\''
    ||| c == '*' || c == '+' || c == '-' || c == '.' || c == '^' || c == '_' || c == '`'
    ||| c == '|' || c == '~'
}

/// A header name in lower case.
pub open spec fn is_header_name(name: Seq<char>) -> bool {
    &&& 0 < name.len() <= 65535
    &&& forall|i: int| 0 <= i < name.len() ==> is_header_name_char(#[trigger] name[i])
}

/// A byte that a header value may hold.
pub open spec fn is_header_byte(byte: u8) -> bool {
    byte == 9 || (32 <= byte && byte != 127)
}

/// A text that can be a header value.
pub open spec fn is_header_text(text: Seq<char>) -> bool {
    forall|i: int|
        0 <= i < encode_utf8(text).len() ==> is_header_byte(#[trigger] encode_utf8(text)[i])
}

/// A text made of visible ASCII characters, spaces and tabs.
pub open spec fn is_visible_text(text: Seq<char>) -> bool {
    forall|i: int|
        0 <= i < text.len() ==> (#[trigger] text[i] == '\t' || ' ' <= text[i] <= '~')
}

/// There are `count` names.
pub open spec fn has_names(entries: Map<Seq<char>, Seq<Seq<u8>>>, count: nat) -> bool {
    &&& entries.dom().finite()
    &&& entries.dom().len() == count
}

/// The names of a header map are few enough for any map with these contents to
/// take one more.
pub open spec fn has_room(entries: Map<Seq<char>, Seq<Seq<u8>>>) -> bool {
    &&& entries.dom().finite()
    &&& entries.dom().len() <= MAX_HEADER_NAMES
}

/// The contents of a header map without any header.
pub open spec fn no_entries() -> Map<Seq<char>, Seq<Seq<u8>>> {
    Map::empty()
}

/// `entries` with `value` behind the values that `name` has.
pub open spec fn appended(
    entries: Map<Seq<char>, Seq<Seq<u8>>>,
    name: Seq<char>,
    value: Seq<u8>,
) -> Map<Seq<char>, Seq<Seq<u8>>> {
    entries.insert(
        name,
        if entries.contains_key(name) {
            entries[name].push(value)
        } else {
            seq![value]
        },
    )
}

/// The name that the last of `pairs` belongs to. A pair without a name belongs
/// to that of the pair before it.
pub open spec fn last_name(
    pairs: Seq<(Option<http::HeaderName>, http::HeaderValue)>,
) -> Seq<char>
    decreases pairs.len(),
{
    if pairs.len() == 0 {
        seq![]
    } else {
        match pairs.last().0 {
            Some(name) => header_name_text(name),
            None => last_name(pairs.drop_last()),
        }
    }
}

/// `entries` after each of `pairs` in turn: a pair with a name sets the one value
/// of that name, a pair without one adds a value to the name before it.
pub open spec fn taken_over(
    entries: Map<Seq<char>, Seq<Seq<u8>>>,
    pairs: Seq<(Option<http::HeaderName>, http::HeaderValue)>,
) -> Map<Seq<char>, Seq<Seq<u8>>>
    decreases pairs.len(),
{
    if pairs.len() == 0 {
        entries
    } else {
        let before = taken_over(entries, pairs.drop_last());
        let bytes = header_value_bytes(pairs.last().1);
        match pairs.last().0 {
            Some(name) => before.insert(header_name_text(name), seq![bytes]),
            None => appended(before, last_name(pairs.drop_last()), bytes),
        }
    }
}

/// Where there are pairs, the first one has a name.
pub open spec fn starts_with_a_name(
    pairs: Seq<(Option<http::HeaderName>, http::HeaderValue)>,
) -> bool {
    pairs.len() > 0 ==> pairs[0].0 is Some
}

/// `http::HeaderValue::from_str`.
///
/// It is trusted that a text is accepted exactly when each of its UTF-8 bytes is
/// a tab or at least 32 and not 127, and that the value then holds those bytes.
pub assume_specification[ http::HeaderValue::from_str ](src: &str) -> (res: Result<
    http::HeaderValue,
    http::header::InvalidHeaderValue,
>)
    ensures
        res is Ok <==> is_header_text(src@),
        res is Ok ==> header_value_bytes(res->Ok_0) == encode_utf8(src@),
;

/// `http::HeaderValue::from_static`.
///
/// It is trusted that the value holds the bytes of the text. Texts that the call
/// panics on, those with other than visible ASCII characters, are left out.
pub assume_specification[ http::HeaderValue::from_static ](src: &'static str) -> (value:
    http::HeaderValue)
    requires
        is_visible_text(src@),
    ensures
        header_value_bytes(value) == encode_utf8(src@),
;

/// `http::HeaderName::from_static`.
///
/// It is trusted that the name has the given text. Texts that the call panics
/// on, such as those with upper-case letters, are left out.
pub assume_specification[ http::HeaderName::from_static ](src: &'static str) -> (name:
    http::HeaderName)
    requires
        is_header_name(src@),
    ensures
        header_name_text(name) == src@,
;

/// `http::HeaderMap::<HeaderValue>::try_insert`; the value that was replaced is
/// dropped.
///
/// It is trusted that the value takes the place of all values that the name had
/// and that nothing else changes, that the call succeeds where the map has room
/// by its contents alone, and that a map that refuses keeps its contents. Which
/// of the maps with more names refuse is left unsaid: that depends on the table
/// that a map has allocated and on the collisions it has seen.
#[verifier::external_body]
fn map_try_insert(
    headers: &mut http::HeaderMap,
    name: &http::HeaderName,
    value: http::HeaderValue,
) -> (res: Result<(), http::header::MaxSizeReached>)
    ensures
        has_room(header_entries(*old(headers))) ==> res is Ok,
        res is Ok ==> header_entries(*final(headers)) == header_entries(*old(headers)).insert(
            header_name_text(*name),
            seq![header_value_bytes(value)],
        ),
        res is Err ==> header_entries(*final(headers)) == header_entries(*old(headers)),
{
    headers.try_insert(name, value)?;
    Ok(())
}

/// `http::HeaderMap::<HeaderValue>::try_append`; whether the name had a value
/// before is dropped.
///
/// It is trusted that the value goes behind the values that the name had and
/// that nothing else changes, that the call succeeds where the map has room by
/// its contents alone, and that a map that refuses keeps its contents. Which of
/// the maps with more names refuse is left unsaid, as for [`map_try_insert`].
#[verifier::external_body]
fn map_try_append(
    headers: &mut http::HeaderMap,
    name: &http::HeaderName,
    value: http::HeaderValue,
) -> (res: Result<(), http::header::MaxSizeReached>)
    ensures
        has_room(header_entries(*old(headers))) ==> res is Ok,
        res is Ok ==> header_entries(*final(headers)) == appended(
            header_entries(*old(headers)),
            header_name_text(*name),
            header_value_bytes(value),
        ),
        res is Err ==> header_entries(*final(headers)) == header_entries(*old(headers)),
{
    headers.try_append(name, value)?;
    Ok(())
}

/// `http::HeaderMap::try_entry`, whose entry is let go at once, and then
/// `http::HeaderMap::<HeaderValue>::extend` with a map that has this one name.
///
/// It is trusted that the name ends with the values that `other` has for it, in
/// their order, and that nothing else changes. The first call makes the room that
/// the second one needs, for one name whatever the number of its values: where it
/// succeeds, the second does not panic. It succeeds where the map has room by its
/// contents alone, and a map that refuses keeps its contents. Which of the maps
/// with more names refuse is left unsaid, as for [`map_try_insert`].
#[verifier::external_body]
fn map_try_extend(
    headers: &mut http::HeaderMap,
    name: &http::HeaderName,
    other: http::HeaderMap,
) -> (res: Result<(), http::header::InvalidHeaderName>)
    requires
        header_entries(other).dom() == set![header_name_text(*name)],
    ensures
        has_room(header_entries(*old(headers))) ==> res is Ok,
        res is Ok ==> header_entries(*final(headers)) == header_entries(
            *old(headers),
        ).union_prefer_right(header_entries(other)),
        res is Err ==> header_entries(*final(headers)) == header_entries(*old(headers)),
{
    headers.try_entry(name)?;
    headers.extend(other);
    Ok(())
}

/// `http::HeaderMap::<HeaderValue>::into_iter`, collected.
///
/// It is trusted that the pairs, taken in turn, make up the contents of the map,
/// and that the first of them has a name. In which order the names come is left
/// open.
#[verifier::external_body]
fn map_into_pairs(headers: http::HeaderMap) -> (pairs: std::collections::VecDeque<
    (Option<http::HeaderName>, http::HeaderValue),
>)
    ensures
        taken_over(no_entries(), pairs@) == header_entries(headers),
        starts_with_a_name(pairs@),
{
    headers.into_iter().collect()
}

/// `http::HeaderMap::keys_len`.
///
/// It is trusted that it counts the names in the map, of which there are
/// finitely many.
#[verifier::external_body]
fn map_keys_len(headers: &http::HeaderMap) -> (count: usize)
    ensures
        has_names(header_entries(*headers), count as nat),
{
    headers.keys_len()
}

/// `http::HeaderMap::<HeaderValue>::new`.
///
/// It is trusted that the new map holds no header.
#[verifier::external_body]
pub(crate) fn map_new() -> (headers: http::HeaderMap)
    ensures
        header_entries(headers) == no_entries(),
{
    http::HeaderMap::new()
}

/// What the session layer says of the session that a request belongs to.
pub struct SessionHeaders {
    /// The headers that carry the session and thread identifiers.
    pub headers: http::HeaderMap,
    /// The label of the subagent that the session runs for, if it runs for one.
    pub subagent: Option<String>,
}

/// `entries` with `text` as the one value of `name`, or unchanged when `text`
/// cannot be a header value.
pub open spec fn with_header(
    entries: Map<Seq<char>, Seq<Seq<u8>>>,
    name: Seq<char>,
    text: Seq<char>,
) -> Map<Seq<char>, Seq<Seq<u8>>> {
    if is_header_text(text) {
        entries.insert(name, seq![encode_utf8(text)])
    } else {
        entries
    }
}

/// As [`with_header`], where there may be no text.
pub open spec fn with_optional_header(
    entries: Map<Seq<char>, Seq<Seq<u8>>>,
    name: Seq<char>,
    text: Option<Seq<char>>,
) -> Map<Seq<char>, Seq<Seq<u8>>> {
    match text {
        Some(text) => with_header(entries, name, text),
        None => entries,
    }
}

/// The headers of a request: the caller's own, then the thread as request
/// identifier, then the session's, then the subagent. Each step overrides what
/// came before it.
pub open spec fn request_entries(
    extra: Map<Seq<char>, Seq<Seq<u8>>>,
    thread_id: Option<Seq<char>>,
    session: Map<Seq<char>, Seq<Seq<u8>>>,
    subagent: Option<Seq<char>>,
) -> Map<Seq<char>, Seq<Seq<u8>>> {
    with_optional_header(
        session_entries(extra, thread_id, session),
        "x-openai-subagent"@,
        subagent,
    )
}

/// There is a text, and it can be a header value.
pub open spec fn is_header_to_add(text: Option<Seq<char>>) -> bool {
    text is Some && is_header_text(text->Some_0)
}

/// The headers of a request before the subagent's.
pub open spec fn session_entries(
    extra: Map<Seq<char>, Seq<Seq<u8>>>,
    thread_id: Option<Seq<char>>,
    session: Map<Seq<char>, Seq<Seq<u8>>>,
) -> Map<Seq<char>, Seq<Seq<u8>>> {
    with_optional_header(extra, "x-client-request-id"@, thread_id).union_prefer_right(session)
}

/// The headers of a request can stand together in any header map: their names
/// are few enough to add the subagent's, or few enough for each of the headers
/// that there are to add.
pub open spec fn can_combine(
    extra: Map<Seq<char>, Seq<Seq<u8>>>,
    thread_id: Option<Seq<char>>,
    session: Map<Seq<char>, Seq<Seq<u8>>>,
    subagent: Option<Seq<char>>,
) -> bool {
    ||| has_room(session_entries(extra, thread_id, session))
    ||| {
        &&& is_header_to_add(thread_id) ==> has_room(extra)
        &&& session == no_entries()
        &&& !is_header_to_add(subagent)
    }
}

/// The names of `extra` and `session`, the two that a request adds, and the one
/// that asks for events are few enough to stand together in any header map, even
/// if no two of them are the same.
pub open spec fn has_few_names(
    extra: Map<Seq<char>, Seq<Seq<u8>>>,
    session: Map<Seq<char>, Seq<Seq<u8>>>,
) -> bool {
    &&& extra.dom().finite()
    &&& session.dom().finite()
    &&& extra.dom().len() + session.dom().len() + 2 <= MAX_HEADER_NAMES
}

/// Where there are few names, the headers of a request can stand together, and
/// they leave room to ask for events.
pub proof fn few_names_leave_room(
    extra: Map<Seq<char>, Seq<Seq<u8>>>,
    thread_id: Option<Seq<char>>,
    session: Map<Seq<char>, Seq<Seq<u8>>>,
    subagent: Option<Seq<char>>,
)
    requires
        has_few_names(extra, session),
    ensures
        can_combine(extra, thread_id, session, subagent),
        has_room(request_entries(extra, thread_id, session, subagent)),
{
    let first = with_optional_header(extra, "x-client-request-id"@, thread_id);
    assert(first.dom().len() <= extra.dom().len() + 1);
    vstd::set_lib::lemma_len_union(first.dom(), session.dom());
    assert(first.union_prefer_right(session).dom() =~= first.dom().union(session.dom()));
}

/// Whether the headers of a request are few enough to stand together in any
/// header map, whatever thread and subagent they speak of.
pub fn headers_fit(extra: &http::HeaderMap, session: &http::HeaderMap) -> (fit: bool)
    ensures
        fit == has_few_names(header_entries(*extra), header_entries(*session)),
        fit ==> forall|thread_id: Option<Seq<char>>, subagent: Option<Seq<char>>| #[trigger]
            can_combine(
                header_entries(*extra),
                thread_id,
                header_entries(*session),
                subagent,
            ),
{
    let extra_count = map_keys_len(extra);
    let session_count = map_keys_len(session);
    let fit = extra_count <= MAX_HEADER_NAMES - 2 && session_count <= MAX_HEADER_NAMES - 2
        - extra_count;
    proof {
        if fit {
            assert forall|thread_id: Option<Seq<char>>, subagent: Option<Seq<char>>| #[trigger]
                can_combine(
                    header_entries(*extra),
                    thread_id,
                    header_entries(*session),
                    subagent,
                ) by {
                few_names_leave_room(
                    header_entries(*extra),
                    thread_id,
                    header_entries(*session),
                    subagent,
                );
            }
        }
    }
    fit
}

/// Makes `value` the one value of the header `name`. A value that cannot stand
/// in a header is passed over. Only a map that cannot grow refuses.
pub fn insert_header(headers: &mut http::HeaderMap, name: &'static str, value: &str) -> (done:
    bool)
    requires
        is_header_name(name@),
    ensures
        has_room(header_entries(*old(headers))) ==> done,
        done ==> header_entries(*final(headers)) == with_header(
            header_entries(*old(headers)),
            name@,
            value@,
        ),
        !done ==> header_entries(*final(headers)) == header_entries(*old(headers)),
        !done ==> is_header_text(value@),
        done && is_header_text(value@) ==> header_entries(*final(headers)) == header_entries(
            *old(headers),
        ).insert(name@, seq![encode_utf8(value@)]),
        !is_header_text(value@) ==> done && header_entries(*final(headers)) == header_entries(
            *old(headers),
        ),
{
    match http::HeaderValue::from_str(value) {
        Ok(header_value) => {
            let header_name = http::HeaderName::from_static(name);
            map_try_insert(headers, &header_name, header_value).is_ok()
        },
        Err(_) => true,
    }
}

/// Taking pairs over onto `entries` is putting what they make up by themselves
/// above `entries`.
proof fn taking_over_prefers_the_pairs(
    entries: Map<Seq<char>, Seq<Seq<u8>>>,
    pairs: Seq<(Option<http::HeaderName>, http::HeaderValue)>,
)
    requires
        starts_with_a_name(pairs),
    ensures
        taken_over(entries, pairs) == entries.union_prefer_right(taken_over(no_entries(), pairs)),
        pairs.len() > 0 ==> taken_over(no_entries(), pairs).contains_key(last_name(pairs)),
    decreases pairs.len(),
{
    let own = taken_over(no_entries(), pairs);
    if pairs.len() > 0 {
        taking_over_prefers_the_pairs(entries, pairs.drop_last());
    }
    assert(taken_over(entries, pairs) =~= entries.union_prefer_right(own));
}

/// Further pairs lose no names.
proof fn taking_over_keeps_names(
    entries: Map<Seq<char>, Seq<Seq<u8>>>,
    pairs: Seq<(Option<http::HeaderName>, http::HeaderValue)>,
    count: int,
)
    requires
        0 <= count <= pairs.len(),
    ensures
        taken_over(entries, pairs.take(count)).dom().subset_of(taken_over(entries, pairs).dom()),
    decreases pairs.len(),
{
    if count == pairs.len() {
        assert(pairs.take(count) =~= pairs);
    } else {
        assert(pairs.drop_last().take(count) =~= pairs.take(count));
        taking_over_keeps_names(entries, pairs.drop_last(), count);
    }
}

/// Pairs that start with a name can be taken over by themselves.
proof fn taking_over_in_two_parts(
    entries: Map<Seq<char>, Seq<Seq<u8>>>,
    a: Seq<(Option<http::HeaderName>, http::HeaderValue)>,
    b: Seq<(Option<http::HeaderName>, http::HeaderValue)>,
)
    requires
        starts_with_a_name(b),
    ensures
        taken_over(entries, a + b) == taken_over(taken_over(entries, a), b),
        b.len() > 0 ==> last_name(a + b) == last_name(b),
    decreases b.len(),
{
    if b.len() == 0 {
        assert(a + b =~= a);
    } else {
        assert((a + b).drop_last() =~= a + b.drop_last());
        assert((a + b).last() == b.last());
        taking_over_in_two_parts(entries, a, b.drop_last());
    }
}

/// Takes the first name and all its values out of `rest`, as a header map. Also
/// tells how many pairs that were.
fn take_name(
    rest: &mut std::collections::VecDeque<(Option<http::HeaderName>, http::HeaderValue)>,
) -> (taken: (http::HeaderName, http::HeaderMap, Ghost<int>))
    requires
        old(rest)@.len() > 0,
        starts_with_a_name(old(rest)@),
    ensures
        0 < taken.2@ <= old(rest)@.len(),
        final(rest)@ == old(rest)@.skip(taken.2@),
        starts_with_a_name(final(rest)@),
        header_entries(taken.1) == taken_over(no_entries(), old(rest)@.take(taken.2@)),
        header_entries(taken.1).dom() == set![header_name_text(taken.0)],
{
    let ghost pairs = rest@;
    let ghost mut count: int = 1;
    let mut headers = map_new();
    let name = match rest.pop_front() {
        Some((Some(name), value)) => {
            proof {
                reveal_with_fuel(taken_over, 2);
                assert(pairs.take(1).drop_last() =~= seq![]);
            }
            match map_try_insert(&mut headers, &name, value) {
                Ok(_) => {},
                Err(_) => unreached(),
            }
            name
        },
        _ => unreached(),
    };
    assert(header_entries(headers).dom() =~= set![header_name_text(name)]);
    while rest.len() > 0 && rest[0].0.is_none()
        invariant
            0 < count <= pairs.len(),
            rest@ == pairs.skip(count),
            header_entries(headers) == taken_over(no_entries(), pairs.take(count)),
            header_entries(headers).dom() == set![header_name_text(name)],
            last_name(pairs.take(count)) == header_name_text(name),
        decreases rest@.len(),
    {
        let value = match rest.pop_front() {
            Some((_, value)) => value,
            None => unreached(),
        };
        proof {
            let now = pairs.take(count + 1);
            assert(now.drop_last() =~= pairs.take(count));
            assert(now.last() == pairs[count]);
            assert(rest@ =~= pairs.skip(count + 1));
        }
        match map_try_append(&mut headers, &name, value) {
            Ok(_) => {},
            Err(_) => unreached(),
        }
        proof {
            count = count + 1;
            assert(header_entries(headers).dom() =~= set![header_name_text(name)]);
        }
    }
    (name, headers, Ghost(count))
}

/// Takes all headers of `other` over: under each of its names stand its values
/// afterwards and no others. Room is asked for once for each name, and only a map
/// that cannot grow refuses.
fn extend_headers(headers: &mut http::HeaderMap, other: http::HeaderMap) -> (done: bool)
    ensures
        has_room(
            header_entries(*old(headers)).union_prefer_right(header_entries(other)),
        ) ==> done,
        header_entries(other) == no_entries() ==> done,
        done ==> header_entries(*final(headers)) == header_entries(
            *old(headers),
        ).union_prefer_right(header_entries(other)),
{
    let ghost entries = header_entries(*headers);
    let ghost whole = entries.union_prefer_right(header_entries(other));
    let mut rest = map_into_pairs(other);
    let ghost pairs = rest@;
    let ghost mut count: int = 0;
    proof {
        taking_over_prefers_the_pairs(entries, pairs);
        assert(pairs.take(0) =~= seq![]);
        assert(pairs.skip(0) =~= pairs);
    }
    while rest.len() > 0
        invariant
            0 <= count <= pairs.len(),
            rest@ == pairs.skip(count),
            starts_with_a_name(rest@),
            pairs.len() > 0 ==> header_entries(other) != no_entries(),
            whole == header_entries(*old(headers)).union_prefer_right(header_entries(other)),
            whole == taken_over(entries, pairs),
            header_entries(*headers) == taken_over(entries, pairs.take(count)),
        decreases rest@.len(),
    {
        let (name, own, Ghost(size)) = take_name(&mut rest);
        proof {
            let before = pairs.take(count);
            let now = pairs.skip(count).take(size);
            assert(before + now =~= pairs.take(count + size));
            assert(pairs.skip(count).skip(size) =~= pairs.skip(count + size));
            taking_over_in_two_parts(entries, before, now);
            taking_over_prefers_the_pairs(taken_over(entries, before), now);
            taking_over_keeps_names(entries, pairs, count);
            if has_room(whole) {
                vstd::set_lib::lemma_len_subset(taken_over(entries, before).dom(), whole.dom());
            }
        }
        if map_try_extend(headers, &name, own).is_err() {
            return false;
        }
        proof {
            count = count + size;
        }
    }
    assert(pairs.take(count) =~= pairs);
    true
}

/// Builds the headers of a request. There are none where a header map that has
/// to grow cannot.
pub fn request_headers(
    extra_headers: http::HeaderMap,
    thread_id: &Option<String>,
    session: SessionHeaders,
) -> (res: Option<http::HeaderMap>)
    ensures
        can_combine(
            header_entries(extra_headers),
            optional_text(*thread_id),
            header_entries(session.headers),
            optional_text(session.subagent),
        ) ==> res is Some,
        res is Some ==> header_entries(res->Some_0) == request_entries(
            header_entries(extra_headers),
            optional_text(*thread_id),
            header_entries(session.headers),
            optional_text(session.subagent),
        ),
{
    proof {
        let extra = header_entries(extra_headers);
        let both = session_entries(
            extra,
            optional_text(*thread_id),
            header_entries(session.headers),
        );
        if has_room(both) {
            vstd::set_lib::lemma_len_subset(extra.dom(), both.dom());
        }
    }
    let mut headers = extra_headers;
    if let Some(thread_id) = thread_id {
        proof {
            reveal_strlit("x-client-request-id");
        }
        if !insert_header(&mut headers, "x-client-request-id", thread_id.as_str()) {
            return None;
        }
    }
    if !extend_headers(&mut headers, session.headers) {
        return None;
    }
    if let Some(subagent) = &session.subagent {
        proof {
            reveal_strlit("x-openai-subagent");
        }
        if !insert_header(&mut headers, "x-openai-subagent", subagent.as_str()) {
            return None;
        }
    }
    Some(headers)
}

/// `entries` as they are sent: asking for a stream of events.
pub open spec fn accepting_events(entries: Map<Seq<char>, Seq<Seq<u8>>>) -> Map<
    Seq<char>,
    Seq<Seq<u8>>,
> {
    entries.insert("accept"@, seq![encode_utf8("text/event-stream"@)])
}

/// Asks for a stream of events, whatever was asked for before. Only a map that
/// cannot grow refuses.
pub fn accept_event_stream(headers: &mut http::HeaderMap) -> (done: bool)
    ensures
        has_room(header_entries(*old(headers))) ==> done,
        done ==> header_entries(*final(headers)) == accepting_events(
            header_entries(*old(headers)),
        ),
        !done ==> header_entries(*final(headers)) == header_entries(*old(headers)),
        done ==> header_entries(*final(headers)) == header_entries(*old(headers)).insert(
            "accept"@,
            seq![encode_utf8("text/event-stream"@)],
        ),
{
    proof {
        reveal_strlit("accept");
        reveal_strlit("text/event-stream");
    }
    let name = http::HeaderName::from_static("accept");
    let value = http::HeaderValue::from_static("text/event-stream");
    map_try_insert(headers, &name, value).is_ok()
}

/// A subagent's label always reaches the server, whatever the caller or the
/// session layer put under its name.
pub proof fn subagent_label_wins(
    extra: Map<Seq<char>, Seq<Seq<u8>>>,
    thread_id: Option<Seq<char>>,
    session: Map<Seq<char>, Seq<Seq<u8>>>,
    subagent: Seq<char>,
)
    requires
        is_header_text(subagent),
    ensures
        request_entries(extra, thread_id, session, Some(subagent)).contains_pair(
            "x-openai-subagent"@,
            seq![encode_utf8(subagent)],
        ),
{
}

/// Unless the session layer has its own value, the request identifier is the
/// thread, whatever the caller put under that name.
pub proof fn thread_is_request_id(
    extra: Map<Seq<char>, Seq<Seq<u8>>>,
    thread_id: Seq<char>,
    session: Map<Seq<char>, Seq<Seq<u8>>>,
    subagent: Option<Seq<char>>,
)
    requires
        is_header_text(thread_id),
        !session.contains_key("x-client-request-id"@),
    ensures
        request_entries(extra, Some(thread_id), session, subagent).contains_pair(
            "x-client-request-id"@,
            seq![encode_utf8(thread_id)],
        ),
{
    reveal_strlit("x-client-request-id");
    reveal_strlit("x-openai-subagent");
    assert("x-client-request-id"@.len() != "x-openai-subagent"@.len());
}

/// The session's headers override the caller's: under a name that the session
/// layer uses stand its values and no others. The one exception is the
/// subagent's name.
pub proof fn session_headers_override(
    extra: Map<Seq<char>, Seq<Seq<u8>>>,
    thread_id: Option<Seq<char>>,
    session: Map<Seq<char>, Seq<Seq<u8>>>,
    subagent: Option<Seq<char>>,
    name: Seq<char>,
)
    requires
        session.contains_key(name),
        name != "x-openai-subagent"@,
    ensures
        request_entries(extra, thread_id, session, subagent).contains_pair(name, session[name]),
{
}

/// Headers of the caller that no rule speaks of go out unchanged, and no header
/// appears that neither the caller, the session layer nor a rule asked for.
pub proof fn other_headers_are_untouched(
    extra: Map<Seq<char>, Seq<Seq<u8>>>,
    thread_id: Option<Seq<char>>,
    session: Map<Seq<char>, Seq<Seq<u8>>>,
    subagent: Option<Seq<char>>,
    name: Seq<char>,
)
    requires
        !session.contains_key(name),
        name != "x-client-request-id"@,
        name != "x-openai-subagent"@,
    ensures
        request_entries(extra, thread_id, session, subagent).contains_key(name)
            <==> extra.contains_key(name),
        extra.contains_key(name) ==> request_entries(
            extra,
            thread_id,
            session,
            subagent,
        )[name] == extra[name],
{
}

/// Each header of a request has one source, which is the first of these that
/// speaks of its name: the subagent's label, the session layer, the thread, the
/// caller. Labels and threads that cannot be header values are no source, and
/// where there is no subagent or no thread, their names are like any other.
pub proof fn each_header_has_one_source(
    extra: Map<Seq<char>, Seq<Seq<u8>>>,
    thread_id: Option<Seq<char>>,
    session: Map<Seq<char>, Seq<Seq<u8>>>,
    subagent: Option<Seq<char>>,
    name: Seq<char>,
)
    ensures
        ({
            let all = request_entries(extra, thread_id, session, subagent);
            let labelled = name == "x-openai-subagent"@ && subagent is Some && is_header_text(
                subagent->Some_0,
            );
            let threaded = name == "x-client-request-id"@ && thread_id is Some && is_header_text(
                thread_id->Some_0,
            );
            &&& all.contains_key(name) <==> labelled || session.contains_key(name) || threaded
                || extra.contains_key(name)
            &&& labelled ==> all[name] == seq![encode_utf8(subagent->Some_0)]
            &&& !labelled && session.contains_key(name) ==> all[name] == session[name]
            &&& !labelled && !session.contains_key(name) && threaded ==> all[name] == seq![
                encode_utf8(thread_id->Some_0),
            ]
            &&& !labelled && !session.contains_key(name) && !threaded && extra.contains_key(name)
                ==> all[name] == extra[name]
        }),
{
    reveal_strlit("x-client-request-id");
    reveal_strlit("x-openai-subagent");
    assert("x-client-request-id"@.len() != "x-openai-subagent"@.len());
}

/// A session that runs for no subagent is not announced as one: under the
/// subagent's name stands what the session layer put there, or else the caller,
/// or nothing.
pub proof fn no_subagent_no_label(
    extra: Map<Seq<char>, Seq<Seq<u8>>>,
    thread_id: Option<Seq<char>>,
    session: Map<Seq<char>, Seq<Seq<u8>>>,
)
    ensures
        ({
            let all = request_entries(extra, thread_id, session, None);
            let name = "x-openai-subagent"@;
            &&& all.contains_key(name) <==> session.contains_key(name) || extra.contains_key(name)
            &&& session.contains_key(name) ==> all[name] == session[name]
            &&& !session.contains_key(name) && extra.contains_key(name) ==> all[name]
                == extra[name]
        }),
{
    reveal_strlit("x-client-request-id");
    reveal_strlit("x-openai-subagent");
    assert("x-client-request-id"@.len() != "x-openai-subagent"@.len());
    each_header_has_one_source(extra, thread_id, session, None, "x-openai-subagent"@);
}

/// Without a thread there is no request identifier but the session layer's or
/// the caller's.
pub proof fn no_thread_no_request_id(
    extra: Map<Seq<char>, Seq<Seq<u8>>>,
    session: Map<Seq<char>, Seq<Seq<u8>>>,
    subagent: Option<Seq<char>>,
)
    ensures
        ({
            let all = request_entries(extra, None, session, subagent);
            let name = "x-client-request-id"@;
            &&& all.contains_key(name) <==> session.contains_key(name) || extra.contains_key(name)
            &&& session.contains_key(name) ==> all[name] == session[name]
            &&& !session.contains_key(name) && extra.contains_key(name) ==> all[name]
                == extra[name]
        }),
{
    reveal_strlit("x-client-request-id");
    reveal_strlit("x-openai-subagent");
    assert("x-client-request-id"@.len() != "x-openai-subagent"@.len());
    each_header_has_one_source(extra, None, session, subagent, "x-client-request-id"@);
}

/// The thread shows in no header but the request identifier, and the subagent in
/// none but its own: with others in their place, all other headers are the same.
pub proof fn thread_and_subagent_show_in_their_own_headers(
    extra: Map<Seq<char>, Seq<Seq<u8>>>,
    session: Map<Seq<char>, Seq<Seq<u8>>>,
    thread_id: Option<Seq<char>>,
    other_thread_id: Option<Seq<char>>,
    subagent: Option<Seq<char>>,
    other_subagent: Option<Seq<char>>,
)
    ensures
        request_entries(extra, thread_id, session, subagent).remove("x-client-request-id"@)
            == request_entries(extra, other_thread_id, session, subagent).remove(
            "x-client-request-id"@,
        ),
        request_entries(extra, thread_id, session, subagent).remove("x-openai-subagent"@)
            == request_entries(extra, thread_id, session, other_subagent).remove(
            "x-openai-subagent"@,
        ),
{
    assert(request_entries(extra, thread_id, session, subagent).remove("x-client-request-id"@)
        =~= request_entries(extra, other_thread_id, session, subagent).remove(
        "x-client-request-id"@,
    ));
    assert(request_entries(extra, thread_id, session, subagent).remove("x-openai-subagent"@)
        =~= request_entries(extra, thread_id, session, other_subagent).remove(
        "x-openai-subagent"@,
    ));
}

/// A text can be a header value exactly where its UTF-8 bytes are tabs or at
/// least 32, and none is 127.
pub proof fn header_texts_have_no_control_bytes(text: Seq<char>)
    ensures
        is_header_text(text) <==> forall|i: int|
            0 <= i < encode_utf8(text).len() ==> (#[trigger] encode_utf8(text)[i] == 9
                || encode_utf8(text)[i] >= 32) && encode_utf8(text)[i] != 127,
{
    if is_header_text(text) {
        assert forall|i: int| 0 <= i < encode_utf8(text).len() implies (
        #[trigger] encode_utf8(text)[i] == 9 || encode_utf8(text)[i] >= 32) && encode_utf8(text)[i]
            != 127 by {
            assert(is_header_byte(encode_utf8(text)[i]));
        }
    }
}

/// Setting a header to a text that can be its value makes that text its one
/// value; any other text changes nothing. The other headers stay what they were
/// in either case.
pub proof fn setting_a_header_sets_only_that(
    entries: Map<Seq<char>, Seq<Seq<u8>>>,
    name: Seq<char>,
    text: Seq<char>,
    other: Seq<char>,
)
    ensures
        is_header_text(text) ==> with_header(entries, name, text).contains_pair(
            name,
            seq![encode_utf8(text)],
        ),
        !is_header_text(text) ==> with_header(entries, name, text) == entries,
        other != name ==> {
            &&& with_header(entries, name, text).contains_key(other) <==> entries.contains_key(
                other,
            )
            &&& with_header(entries, name, text)[other] == entries[other]
        },
{
}

/// Whatever headers stood there before, and however many, a configured request
/// accepts `text/event-stream` and nothing else, and its other headers are what
/// they were.
pub proof fn events_are_asked_for(entries: Map<Seq<char>, Seq<Seq<u8>>>, other: Seq<char>)
    ensures
        accepting_events(entries).contains_key("accept"@),
        accepting_events(entries)["accept"@] == seq![encode_utf8("text/event-stream"@)],
        other != "accept"@ ==> {
            &&& accepting_events(entries).contains_key(other) <==> entries.contains_key(other)
            &&& entries.contains_key(other) ==> accepting_events(entries)[other] == entries[other]
        },
        accepting_events(entries).remove("accept"@) == entries.remove("accept"@),
        accepting_events(accepting_events(entries)) == accepting_events(entries),
{
    assert(accepting_events(entries).remove("accept"@) =~= entries.remove("accept"@));
    assert(accepting_events(accepting_events(entries)) =~= accepting_events(entries));
}

/// Room is a matter of the number of names alone, and 6553 names leave room.
pub proof fn room_is_for_any_few_names(entries: Map<Seq<char>, Seq<Seq<u8>>>)
    ensures
        has_room(entries) <==> entries.dom().finite() && entries.dom().len() <= 6553,
        no_entries().dom() == Set::<Seq<char>>::empty(),
{
}

/// Headers can stand together wherever all their names but the subagent's are at
/// most 6553, and wherever nothing is to be added.
pub proof fn combining_is_for_any_few_names(
    extra: Map<Seq<char>, Seq<Seq<u8>>>,
    thread_id: Option<Seq<char>>,
    session: Map<Seq<char>, Seq<Seq<u8>>>,
    subagent: Option<Seq<char>>,
)
    ensures
        ({
            let names = extra.dom().union(session.dom()).insert("x-client-request-id"@);
            names.finite() && names.len() <= 6553 ==> can_combine(
                extra,
                thread_id,
                session,
                subagent,
            )
        }),
        session.dom() == Set::<Seq<char>>::empty() && subagent is None && thread_id is None
            ==> can_combine(extra, thread_id, session, subagent),
        extra.dom().finite() && session.dom().finite() && extra.dom().len() + session.dom().len()
            + 2 <= 6553 <==> has_few_names(extra, session),
{
    let names = extra.dom().union(session.dom()).insert("x-client-request-id"@);
    if names.finite() && names.len() <= 6553 {
        vstd::set_lib::lemma_len_subset(session_entries(extra, thread_id, session).dom(), names);
    }
    if session.dom() == Set::<Seq<char>>::empty() {
        assert(session =~= no_entries());
    }
}

} // verus!
