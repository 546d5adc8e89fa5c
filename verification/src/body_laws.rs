//! What holds of every request body.

use vstd::prelude::*;

use crate::json::{
    comma_joined, json_array, json_escape, json_member, json_object, json_string,
};
use crate::metadata::distinct_keys;
use crate::raw::{all_raw_json, is_raw_json, raw_value};
use crate::request::{body_text, members_after_input, members_before_input, RequestView};

verus! {

/// The part of a body that stands before its input array.
pub open spec fn body_head(r: RequestView) -> Seq<char> {
    "{"@ + comma_joined(members_before_input(r)) + ","@ + "\"input\""@ + ":"@
}

/// The part of a body that stands behind its input array.
pub open spec fn body_tail(r: RequestView) -> Seq<char> {
    ","@ + comma_joined(members_after_input(r)) + "}"@
}

/// Where the item `i` starts in the comma-separated `items`.
pub open spec fn item_start(items: Seq<Seq<char>>, i: int) -> int {
    if i == 0 {
        0
    } else {
        comma_joined(items.take(i)).len() as int + 1
    }
}

/// Where the input item `i` starts in the body.
pub open spec fn input_offset(r: RequestView, i: int) -> int {
    body_head(r).len() as int + 1 + item_start(r.input, i)
}

/// Lists that are joined with commas and put one behind the other, with a comma
/// between them, are the joined list of both.
pub proof fn joined_in_two_parts(a: Seq<Seq<char>>, b: Seq<Seq<char>>)
    requires
        a.len() > 0,
        b.len() > 0,
    ensures
        comma_joined(a + b) == comma_joined(a) + ","@ + comma_joined(b),
    decreases b.len(),
{
    assert((a + b).drop_last() =~= a + b.drop_last());
    assert((a + b).last() == b.last());
    if b.len() == 1 {
        assert(a + b.drop_last() =~= a);
        assert(comma_joined(a + b) =~= comma_joined(a) + ","@ + comma_joined(b));
    } else {
        joined_in_two_parts(a, b.drop_last());
        assert(comma_joined(a + b) =~= comma_joined(a) + ","@ + comma_joined(b));
    }
}

/// Whatever items are sent, the body is the same text around the input array:
/// what stands before and behind it is decided by the rest of the request alone.
pub proof fn body_frames_its_input(r: RequestView, input: Seq<Seq<char>>)
    ensures
        body_text(RequestView { input, ..r }) == body_head(r) + json_array(input) + body_tail(r),
{
    let sent = RequestView { input, ..r };
    let before = members_before_input(sent);
    let member = json_member("\"input\""@, json_array(input));
    let after = members_after_input(sent);
    assert(before == members_before_input(r));
    assert(after == members_after_input(r));
    joined_in_two_parts(before + seq![member], after);
    joined_in_two_parts(before, seq![member]);
    assert(comma_joined(seq![member]) == member);
    assert(body_text(sent) == json_object(before + seq![member] + after));
    assert(body_text(sent) =~= body_head(r) + json_array(input) + body_tail(r));
}

proof fn item_in_its_place(items: Seq<Seq<char>>, i: int)
    requires
        0 <= i < items.len(),
    ensures
        0 <= item_start(items, i),
        item_start(items, i) + items[i].len() <= comma_joined(items).len(),
        comma_joined(items).subrange(item_start(items, i), item_start(items, i) + items[i].len())
            == items[i],
{
    reveal_strlit(",");
    let start = item_start(items, i);
    let upto = items.take(i + 1);
    assert(upto.drop_last() =~= items.take(i));
    assert(upto.last() == items[i]);
    assert(comma_joined(upto).len() == start + items[i].len());
    assert(comma_joined(upto).subrange(start, start + items[i].len()) =~= items[i]);
    if i + 1 < items.len() {
        let rest = items.skip(i + 1);
        joined_in_two_parts(upto, rest);
        assert(upto + rest =~= items);
        assert(comma_joined(items).subrange(start, start + items[i].len()) =~= comma_joined(
            upto,
        ).subrange(start, start + items[i].len()));
    } else {
        assert(upto =~= items);
    }
}

/// Every input item stands in the body exactly as its raw text is, character
/// for character.
pub proof fn body_keeps_every_item(r: RequestView, i: int)
    requires
        0 <= i < r.input.len(),
    ensures
        0 <= input_offset(r, i),
        input_offset(r, i) + r.input[i].len() <= body_text(r).len(),
        body_text(r).subrange(input_offset(r, i), input_offset(r, i) + r.input[i].len())
            == r.input[i],
{
    reveal_strlit("[");
    item_in_its_place(r.input, i);
    body_frames_its_input(r, r.input);
    assert(RequestView { input: r.input, ..r } == r);
    let start = item_start(r.input, i);
    assert(body_text(r).subrange(input_offset(r, i), input_offset(r, i) + r.input[i].len())
        =~= comma_joined(r.input).subrange(start, start + r.input[i].len()));
}

/// The items stand in the body in the order in which they were given, and none
/// overlaps another.
pub proof fn body_keeps_item_order(r: RequestView, i: int, j: int)
    requires
        0 <= i < j < r.input.len(),
    ensures
        input_offset(r, i) + r.input[i].len() < input_offset(r, j),
{
    reveal_strlit(",");
    let upto = r.input.take(j);
    item_in_its_place(upto, i);
    assert(upto.take(i) =~= r.input.take(i));
    assert(upto[i] == r.input[i]);
}

/// A body made of a retained prefix and a fresh suffix holds every retained item
/// as it was, at the place it would have without the suffix.
pub proof fn suffix_leaves_prefix_in_place(
    r: RequestView,
    prefix: Seq<Seq<char>>,
    suffix: Seq<Seq<char>>,
    i: int,
)
    requires
        0 <= i < prefix.len(),
    ensures
        input_offset(RequestView { input: prefix + suffix, ..r }, i) == input_offset(
            RequestView { input: prefix, ..r },
            i,
        ),
        ({
            let sent = RequestView { input: prefix + suffix, ..r };
            body_text(sent).subrange(input_offset(sent, i), input_offset(sent, i) + prefix[i].len())
                == prefix[i]
        }),
{
    let sent = RequestView { input: prefix + suffix, ..r };
    assert((prefix + suffix).take(i) =~= prefix.take(i));
    assert((prefix + suffix)[i] == prefix[i]);
    body_keeps_every_item(sent, i);
}

/// How the input is divided into a retained prefix and a fresh suffix leaves no
/// trace in the body.
pub proof fn division_of_input_is_invisible(
    r: RequestView,
    prefix: Seq<Seq<char>>,
    suffix: Seq<Seq<char>>,
    other_prefix: Seq<Seq<char>>,
    other_suffix: Seq<Seq<char>>,
)
    requires
        prefix + suffix == other_prefix + other_suffix,
    ensures
        body_text(RequestView { input: prefix + suffix, ..r }) == body_text(
            RequestView { input: other_prefix + other_suffix, ..r },
        ),
{
}

/// What follows the first of `items` in a list that ends with a closing bracket
/// and goes on with `after`.
spec fn behind_first(items: Seq<Seq<char>>, after: Seq<char>) -> Seq<char>
    recommends
        items.len() > 0,
{
    if items.len() == 1 {
        "]"@ + after
    } else {
        ","@ + (comma_joined(items.drop_first()) + "]"@ + after)
    }
}

proof fn list_from_the_front(items: Seq<Seq<char>>, after: Seq<char>)
    requires
        items.len() > 0,
    ensures
        comma_joined(items) + "]"@ + after == items[0] + behind_first(items, after),
{
    if items.len() == 1 {
        assert(comma_joined(items) + "]"@ + after =~= items[0] + behind_first(items, after));
    } else {
        let first = seq![items[0]];
        let rest = items.drop_first();
        assert(first + rest =~= items);
        joined_in_two_parts(first, rest);
        assert(comma_joined(items) + "]"@ + after =~= items[0] + behind_first(items, after));
    }
}

/// A value that stands before a comma or a closing bracket is not the beginning
/// of a longer value.
proof fn value_ends_where_it_ends(x: Seq<char>, y: Seq<char>, after_x: Seq<char>, after_y: Seq<char>)
    requires
        is_raw_json(x),
        is_raw_json(y),
        after_x.len() > 0,
        after_x[0] == ',' || after_x[0] == ']',
        x + after_x == y + after_y,
    ensures
        y.len() <= x.len(),
{
    reveal_strlit(",");
    reveal_strlit("]");
    if x.len() < y.len() {
        let whole = x + after_x;
        let rest = y.skip(x.len() as int + 1);
        assert(whole.take(y.len() as int) =~= y);
        assert(y[x.len() as int] == whole[x.len() as int]);
        assert(whole[x.len() as int] == after_x[0]);
        if after_x[0] == ',' {
            assert(y =~= x + ","@ + rest);
            assert(raw_value(x + ","@ + rest) is Err);
        } else {
            assert(y =~= x + "]"@ + rest);
            assert(raw_value(x + "]"@ + rest) is Err);
        }
    }
}

proof fn lists_are_told_apart(
    a: Seq<Seq<char>>,
    b: Seq<Seq<char>>,
    after_a: Seq<char>,
    after_b: Seq<char>,
)
    requires
        all_raw_json(a),
        all_raw_json(b),
        comma_joined(a) + "]"@ + after_a == comma_joined(b) + "]"@ + after_b,
    ensures
        a == b,
        after_a == after_b,
    decreases a.len(),
{
    reveal_strlit(",");
    reveal_strlit("]");
    let text = comma_joined(a) + "]"@ + after_a;
    if a.len() == 0 || b.len() == 0 {
        if a.len() > 0 {
            list_from_the_front(a, after_a);
            assert(is_raw_json(a[0]));
            assert(text[0] == a[0][0]);
            assert((comma_joined(b) + "]"@ + after_b)[0] == ']');
        } else if b.len() > 0 {
            list_from_the_front(b, after_b);
            assert(is_raw_json(b[0]));
            assert(text[0] == ']');
            assert((comma_joined(b) + "]"@ + after_b)[0] == b[0][0]);
        } else {
            assert(text.skip(1) =~= after_a);
            assert((comma_joined(b) + "]"@ + after_b).skip(1) =~= after_b);
            assert(a =~= b);
        }
    } else {
        list_from_the_front(a, after_a);
        list_from_the_front(b, after_b);
        assert(is_raw_json(a[0]));
        assert(is_raw_json(b[0]));
        let behind_a = behind_first(a, after_a);
        let behind_b = behind_first(b, after_b);
        value_ends_where_it_ends(a[0], b[0], behind_a, behind_b);
        value_ends_where_it_ends(b[0], a[0], behind_b, behind_a);
        let end = a[0].len() as int;
        assert(text.take(end) =~= a[0]);
        assert(text.take(end) =~= b[0]);
        assert(text.skip(end) =~= behind_a);
        assert(text.skip(end) =~= behind_b);
        assert(behind_a[0] == behind_b[0]);
        if a.len() == 1 {
            assert(behind_a.skip(1) =~= after_a);
            assert(behind_b.skip(1) =~= after_b);
            assert(a =~= b);
        } else {
            let rest_a = a.drop_first();
            let rest_b = b.drop_first();
            assert(behind_a.skip(1) =~= comma_joined(rest_a) + "]"@ + after_a);
            assert(behind_b.skip(1) =~= comma_joined(rest_b) + "]"@ + after_b);
            assert(all_raw_json(rest_a));
            assert(all_raw_json(rest_b));
            lists_are_told_apart(rest_a, rest_b, after_a, after_b);
            assert(a =~= seq![a[0]] + rest_a);
            assert(b =~= seq![b[0]] + rest_b);
        }
    }
}

/// Read back as a list of JSON values, the input of a body gives exactly the
/// items that were sent, in their order: no other list of values can be found
/// where the input stands. Sent again as the whole input, what was found makes
/// the same body.
pub proof fn input_is_read_back(
    r: RequestView,
    prefix: Seq<Seq<char>>,
    suffix: Seq<Seq<char>>,
    found: Seq<Seq<char>>,
    rest: Seq<char>,
)
    requires
        all_raw_json(prefix),
        all_raw_json(suffix),
        all_raw_json(found),
        body_text(RequestView { input: prefix + suffix, ..r }) == body_head(r) + json_array(found)
            + rest,
    ensures
        found == prefix + suffix,
        rest == body_tail(r),
        body_text(RequestView { input: found + Seq::<Seq<char>>::empty(), ..r }) == body_text(
            RequestView { input: prefix + suffix, ..r },
        ),
{
    let sent = prefix + suffix;
    body_frames_its_input(r, sent);
    let body = body_text(RequestView { input: sent, ..r });
    let start = body_head(r).len() as int + 1;
    reveal_strlit("[");
    assert(body.skip(start) =~= comma_joined(sent) + "]"@ + body_tail(r));
    assert(body.skip(start) =~= comma_joined(found) + "]"@ + rest);
    assert(all_raw_json(sent));
    lists_are_told_apart(sent, found, body_tail(r), rest);
    assert(found + Seq::<Seq<char>>::empty() =~= found);
}

/// `text` as it stands between the quotes of a JSON string.
spec fn escaped(text: Seq<char>) -> Seq<char> {
    text.map_values(|c: char| json_escape(c)).flatten()
}

proof fn escaped_from_the_front(text: Seq<char>)
    requires
        text.len() > 0,
    ensures
        escaped(text) == json_escape(text[0]) + escaped(text.drop_first()),
{
    let parts = text.map_values(|c: char| json_escape(c));
    assert(parts.drop_first() =~= text.drop_first().map_values(|c: char| json_escape(c)));
    assert(parts.first() == json_escape(text[0]));
}

proof fn escapes_are_told_apart(c: char, d: char, after_c: Seq<char>, after_d: Seq<char>)
    requires
        json_escape(c) + after_c == json_escape(d) + after_d,
    ensures
        c == d,
{
    let one = json_escape(c) + after_c;
    let other = json_escape(d) + after_d;
    assert(one[0] == json_escape(c)[0]);
    assert(other[0] == json_escape(d)[0]);
    if json_escape(c).len() > 1 && json_escape(d).len() > 1 {
        assert(one[1] == json_escape(c)[1]);
        assert(other[1] == json_escape(d)[1]);
        if json_escape(c).len() == 6 && json_escape(d).len() == 6 {
            assert(one[4] == json_escape(c)[4]);
            assert(other[4] == json_escape(d)[4]);
            assert(one[5] == json_escape(c)[5]);
            assert(other[5] == json_escape(d)[5]);
        }
    }
}

proof fn escaped_texts_are_told_apart(a: Seq<char>, b: Seq<char>)
    requires
        escaped(a) == escaped(b),
    ensures
        a == b,
    decreases a.len(),
{
    if a.len() == 0 {
        if b.len() > 0 {
            escaped_from_the_front(b);
            assert(escaped(a).len() == 0);
            assert(escaped(b).len() > 0);
        }
        assert(a =~= b);
    } else if b.len() == 0 {
        escaped_from_the_front(a);
        assert(escaped(b).len() == 0);
    } else {
        escaped_from_the_front(a);
        escaped_from_the_front(b);
        let rest_a = escaped(a.drop_first());
        let rest_b = escaped(b.drop_first());
        escapes_are_told_apart(a[0], b[0], rest_a, rest_b);
        let skip = json_escape(a[0]).len() as int;
        assert(escaped(a).skip(skip) =~= rest_a);
        assert(escaped(b).skip(skip) =~= rest_b);
        escaped_texts_are_told_apart(a.drop_first(), b.drop_first());
        assert(a =~= seq![a[0]] + a.drop_first());
        assert(b =~= seq![b[0]] + b.drop_first());
    }
}

/// No two different texts are written as the same JSON string.
pub proof fn json_strings_are_told_apart(a: Seq<char>, b: Seq<char>)
    requires
        json_string(a) == json_string(b),
    ensures
        a == b,
{
    let one = json_string(a);
    let other = json_string(b);
    assert(one.subrange(1, one.len() - 1) =~= escaped(a));
    assert(other.subrange(1, other.len() - 1) =~= escaped(b));
    escaped_texts_are_told_apart(a, b);
}

/// The object that metadata is written as has no two members of the same name.
pub proof fn metadata_members_are_distinct(pairs: Seq<(Seq<char>, Seq<char>)>, i: int, j: int)
    requires
        distinct_keys(pairs),
        0 <= i < j < pairs.len(),
    ensures
        json_string(pairs[i].0) != json_string(pairs[j].0),
{
    if json_string(pairs[i].0) == json_string(pairs[j].0) {
        json_strings_are_told_apart(pairs[i].0, pairs[j].0);
    }
}

/// The value of a hexadecimal digit.
pub open spec fn hex_value(c: char) -> int {
    if '0' <= c <= '9' {
        c as int - '0' as int
    } else if 'a' <= c <= 'f' {
        c as int - 'a' as int + 10
    } else if 'A' <= c <= 'F' {
        c as int - 'A' as int + 10
    } else {
        -1
    }
}

/// The character that a backslash and `c` stand for in a JSON string, but for
/// `u`.
pub open spec fn short_escape(c: char) -> Option<char> {
    if c == '"' || c == '\\' || c == '/' {
        Some(c)
    } else if c == 'b' {
        Some(8 as char)
    } else if c == 'f' {
        Some(12 as char)
    } else if c == 'n' {
        Some('\n')
    } else if c == 'r' {
        Some('\r')
    } else if c == 't' {
        Some('\t')
    } else {
        None
    }
}

/// `c` before what has been read so far, if that could be read.
pub open spec fn read_before(c: char, rest: Option<Seq<char>>) -> Option<Seq<char>> {
    match rest {
        Some(text) => Some(seq![c] + text),
        None => None,
    }
}

/// Reads what stands between the quotes of a JSON string, by the rules of JSON:
/// no bare quote and no bare control character, and each escape for what it
/// stands for. Escapes of half a character are not read.
pub open spec fn read_json_string(text: Seq<char>) -> Option<Seq<char>>
    decreases text.len(),
{
    if text.len() == 0 {
        Some(seq![])
    } else if text[0] == '"' || (text[0] as int) < 0x20 {
        None
    } else if text[0] != '\\' {
        read_before(text[0], read_json_string(text.skip(1)))
    } else if text.len() < 2 {
        None
    } else if text[1] != 'u' {
        match short_escape(text[1]) {
            Some(c) => read_before(c, read_json_string(text.skip(2))),
            None => None,
        }
    } else if text.len() < 6 || hex_value(text[2]) < 0 || hex_value(text[3]) < 0 || hex_value(
        text[4],
    ) < 0 || hex_value(text[5]) < 0 {
        None
    } else {
        let code = hex_value(text[2]) * 4096 + hex_value(text[3]) * 256 + hex_value(text[4]) * 16
            + hex_value(text[5]);
        if 0xd800 <= code < 0xe000 {
            None
        } else {
            read_before(code as char, read_json_string(text.skip(6)))
        }
    }
}

proof fn escapes_are_read_back(c: char, after: Seq<char>)
    ensures
        read_json_string(json_escape(c) + after) == read_before(c, read_json_string(after)),
{
    let text = json_escape(c) + after;
    let size = json_escape(c).len() as int;
    assert(text.skip(size) =~= after);
    assert(text[0] == json_escape(c)[0]);
    if size > 1 {
        assert(text[1] == json_escape(c)[1]);
    }
    if size == 6 {
        let code = c as int;
        assert(text[2] == '0');
        assert(text[3] == '0');
        assert(text[4] == json_escape(c)[4]);
        assert(text[5] == json_escape(c)[5]);
        assert(hex_value(text[4]) == code / 16);
        assert(hex_value(text[5]) == code % 16);
    }
}

proof fn escaped_texts_are_read_back(text: Seq<char>)
    ensures
        read_json_string(escaped(text)) == Some(text),
    decreases text.len(),
{
    if text.len() == 0 {
        assert(escaped(text) =~= seq![]);
        assert(text =~= seq![]);
    } else {
        escaped_from_the_front(text);
        escaped_texts_are_read_back(text.drop_first());
        escapes_are_read_back(text[0], escaped(text.drop_first()));
        assert(seq![text[0]] + text.drop_first() =~= text);
    }
}

/// A JSON string stands between quotes, and what stands between them is read back
/// as the text that was written.
pub proof fn json_strings_are_read_back(text: Seq<char>)
    ensures
        json_string(text).len() >= 2,
        json_string(text).first() == '"',
        json_string(text).last() == '"',
        read_json_string(json_string(text).subrange(1, json_string(text).len() - 1)) == Some(text),
{
    let json = json_string(text);
    assert(json.subrange(1, json.len() - 1) =~= escaped(text));
    escaped_texts_are_read_back(text);
}

/// Nothing is joined to nothing, and one part to itself.
pub proof fn short_lists_are_joined_so(part: Seq<char>)
    ensures
        comma_joined(seq![]) == Seq::<char>::empty(),
        comma_joined(seq![part]) == part,
{
}

} // verus!
