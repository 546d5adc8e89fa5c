//! JSON values kept as the text they arrived in.

use vstd::prelude::*;

verus! {

/// What `serde_json::value::RawValue::from_string` makes of a text: the text of
/// the one JSON value in it, or the message of the error.
pub uninterp spec fn raw_value(json: Seq<char>) -> Result<Seq<char>, Seq<char>>;

/// The whitespace that JSON allows around a value.
pub open spec fn is_json_space(c: char) -> bool {
    c == ' ' || c == '\t' || c == '\n' || c == '\r'
}

/// `inner` is `outer` without the JSON whitespace at its two ends, and is not
/// empty.
pub open spec fn is_trimmed_from(inner: Seq<char>, outer: Seq<char>) -> bool {
    &&& inner.len() > 0
    &&& !is_json_space(inner.first())
    &&& !is_json_space(inner.last())
    &&& exists|start: int| #[trigger]
        trims_at(inner, outer, start)
}

/// `inner` stands in `outer` from `start` on, with nothing but JSON whitespace
/// before and behind it.
pub open spec fn trims_at(inner: Seq<char>, outer: Seq<char>, start: int) -> bool {
    &&& 0 <= start
    &&& start + inner.len() <= outer.len()
    &&& outer.subrange(start, start + inner.len()) == inner
    &&& forall|i: int|
        0 <= i < outer.len() && !(start <= i < start + inner.len()) ==> is_json_space(
            #[trigger] outer[i],
        )
}

/// `text` starts like a value, and behind it the value is over: with a comma or
/// a closing bracket next, the whole is no longer one JSON value.
pub open spec fn is_self_contained(text: Seq<char>) -> bool {
    &&& text.len() > 0
    &&& text.first() != ']'
    &&& forall|rest: Seq<char>| (#[trigger] raw_value(text + ","@ + rest)) is Err
    &&& forall|rest: Seq<char>| (#[trigger] raw_value(text + "]"@ + rest)) is Err
}

/// `text` is one JSON value with nothing around it.
pub open spec fn is_raw_json(text: Seq<char>) -> bool {
    &&& raw_value(text) == Ok::<Seq<char>, Seq<char>>(text)
    &&& is_self_contained(text)
}

/// Each of `items` is one JSON value with nothing around it.
pub open spec fn all_raw_json(items: Seq<Seq<char>>) -> bool {
    forall|i: int| 0 <= i < items.len() ==> is_raw_json(#[trigger] items[i])
}

/// A text or an error message, as sequences of characters.
pub open spec fn outcome_text(res: Result<String, String>) -> Result<Seq<char>, Seq<char>> {
    match res {
        Ok(text) => Ok(text@),
        Err(message) => Err(message@),
    }
}

/// `serde_json::value::RawValue::from_string`; the value is handed out as its
/// text (`RawValue::get`), an error as its message.
///
/// It is trusted that the outcome depends on the given text alone, that an
/// accepted value is the given text without the JSON whitespace around it, and
/// that such a value is accepted again as it is. It is also trusted that the
/// value does not start with a closing bracket, and that no text is accepted that
/// goes on behind the value with a comma or a closing bracket.
#[verifier::external_body]
fn parse_raw_value(json: String) -> (res: Result<String, String>)
    ensures
        outcome_text(res) == raw_value(json@),
        res is Ok ==> is_trimmed_from(res->Ok_0@, json@),
        res is Ok ==> raw_value(res->Ok_0@) == outcome_text(res),
        res is Ok ==> is_self_contained(res->Ok_0@),
{
    serde_json::value::RawValue::from_string(json)
        .map(|value| value.get().to_owned())
        .map_err(|e| e.to_string())
}

/// One JSON value, kept as text, without whitespace around it.
///
/// The text is never decoded into typed data, so members that this library has
/// never heard of survive, and so do spacing and key order.
#[derive(Debug)]
pub struct RawJson {
    json: String,
}

impl View for RawJson {
    type V = Seq<char>;

    closed spec fn view(&self) -> Seq<char> {
        self.json@
    }
}

/// The texts of a sequence of raw values.
pub open spec fn raw_texts(items: Seq<RawJson>) -> Seq<Seq<char>> {
    items.map_values(|item: RawJson| item@)
}

impl RawJson {
    /// The text is one JSON value with nothing around it.
    #[verifier::type_invariant]
    spec fn holds_one_value(self) -> bool {
        is_raw_json(self.json@)
    }

    /// Reads `json` as one JSON value and keeps its text.
    pub fn from_string(json: String) -> (res: Result<RawJson, String>)
        ensures
            raw_value(json@) is Ok <==> res is Ok,
            res is Ok ==> raw_value(json@) == Ok::<Seq<char>, Seq<char>>(res->Ok_0@),
            res is Ok ==> is_trimmed_from(res->Ok_0@, json@),
            res is Ok ==> is_raw_json(res->Ok_0@),
            res is Err ==> raw_value(json@) == Err::<Seq<char>, Seq<char>>(res->Err_0@),
    {
        match parse_raw_value(json) {
            Ok(text) => Ok(RawJson { json: text }),
            Err(message) => Err(message),
        }
    }

    /// The text of the value.
    pub fn get(&self) -> (text: &str)
        ensures
            text@ == self@,
            is_raw_json(self@),
    {
        proof {
            use_type_invariant(self);
        }
        self.json.as_str()
    }

    /// Reads the value's own text again, which gives an equal value.
    pub fn retain(&self) -> (res: Result<RawJson, String>)
        ensures
            res is Ok,
            res->Ok_0@ == self@,
    {
        proof {
            use_type_invariant(self);
        }
        RawJson::from_string(self.json.clone())
    }
}

} // verus!
