//! The Responses request and the JSON body it is sent as.

use vstd::prelude::*;

use crate::json::{enclose, join_with_commas, serialize_str};
use crate::json::{
    comma_joined, json_array, json_bool, json_member, json_object, json_string, optional_text,
    texts,
};
use crate::metadata::{distinct_keys, pair_texts, ClientMetadata};
use crate::raw::{all_raw_json, is_raw_json, raw_texts, RawJson};

verus! {

/// A Responses request.
///
/// Parts whose shape this library does not need to know (conversation items,
/// tools, reasoning and text settings) are raw JSON values.
#[derive(Debug)]
pub struct ResponsesApiRequest {
    pub model: String,
    /// Left out of the body when empty.
    pub instructions: String,
    pub input: Vec<RawJson>,
    pub tools: Option<RawJson>,
    pub tool_choice: String,
    pub parallel_tool_calls: bool,
    /// Written as `null` when absent.
    pub reasoning: Option<RawJson>,
    pub store: bool,
    pub stream: bool,
    pub stream_options: Option<RawJson>,
    /// The body names this member `include`.
    pub includes: Vec<String>,
    pub service_tier: Option<String>,
    pub prompt_cache_key: Option<String>,
    pub text: Option<RawJson>,
    pub client_metadata: Option<ClientMetadata>,
}

/// The contents of a request, as sequences of characters. Raw values stand as
/// their text.
#[verifier::ext_equal]
pub struct RequestView {
    pub model: Seq<char>,
    pub instructions: Seq<char>,
    pub input: Seq<Seq<char>>,
    pub tools: Option<Seq<char>>,
    pub tool_choice: Seq<char>,
    pub parallel_tool_calls: bool,
    pub reasoning: Option<Seq<char>>,
    pub store: bool,
    pub stream: bool,
    pub stream_options: Option<Seq<char>>,
    pub includes: Seq<Seq<char>>,
    pub service_tier: Option<Seq<char>>,
    pub prompt_cache_key: Option<Seq<char>>,
    pub text: Option<Seq<char>>,
    pub client_metadata: Option<Seq<(Seq<char>, Seq<char>)>>,
}

/// The text of an optional raw value.
pub open spec fn raw_text(value: Option<RawJson>) -> Option<Seq<char>> {
    match value {
        Some(raw) => Some(raw@),
        None => None,
    }
}

impl View for ResponsesApiRequest {
    type V = RequestView;

    open spec fn view(&self) -> RequestView {
        RequestView {
            model: self.model@,
            instructions: self.instructions@,
            input: raw_texts(self.input@),
            tools: raw_text(self.tools),
            tool_choice: self.tool_choice@,
            parallel_tool_calls: self.parallel_tool_calls,
            reasoning: raw_text(self.reasoning),
            store: self.store,
            stream: self.stream,
            stream_options: raw_text(self.stream_options),
            includes: texts(self.includes@),
            service_tier: optional_text(self.service_tier),
            prompt_cache_key: optional_text(self.prompt_cache_key),
            text: raw_text(self.text),
            client_metadata: match self.client_metadata {
                Some(metadata) => Some(metadata@),
                None => None,
            },
        }
    }
}

/// `value`, if there is one, is one JSON value with nothing around it.
pub open spec fn optional_raw_json(value: Option<Seq<char>>) -> bool {
    value is Some ==> is_raw_json(value->Some_0)
}

/// What holds of the contents of every request: its raw parts are JSON values,
/// and no key of its metadata occurs twice.
pub open spec fn is_request(r: RequestView) -> bool {
    &&& all_raw_json(r.input)
    &&& optional_raw_json(r.tools)
    &&& optional_raw_json(r.reasoning)
    &&& optional_raw_json(r.stream_options)
    &&& optional_raw_json(r.text)
    &&& r.client_metadata is Some ==> distinct_keys(r.client_metadata->Some_0)
}

/// The member `key` when there is a value for it, nothing otherwise.
pub open spec fn optional_member(key: Seq<char>, value: Option<Seq<char>>) -> Seq<Seq<char>> {
    match value {
        Some(json) => seq![json_member(key, json)],
        None => seq![],
    }
}

/// The JSON text of an optional string.
pub open spec fn json_optional_string(value: Option<Seq<char>>) -> Option<Seq<char>> {
    match value {
        Some(text) => Some(json_string(text)),
        None => None,
    }
}

/// The JSON object that holds `pairs` in their order.
pub open spec fn json_pairs(pairs: Seq<(Seq<char>, Seq<char>)>) -> Seq<char> {
    json_object(
        pairs.map_values(
            |pair: (Seq<char>, Seq<char>)| json_member(json_string(pair.0), json_string(pair.1)),
        ),
    )
}

/// The members of the body that stand before the input.
pub open spec fn members_before_input(r: RequestView) -> Seq<Seq<char>> {
    seq![json_member("\"model\""@, json_string(r.model))] + optional_member(
        "\"instructions\""@,
        if r.instructions.len() == 0 {
            None
        } else {
            Some(json_string(r.instructions))
        },
    )
}

/// The members of the body that stand behind the input.
pub open spec fn members_after_input(r: RequestView) -> Seq<Seq<char>> {
    optional_member("\"tools\""@, r.tools) + seq![
        json_member("\"tool_choice\""@, json_string(r.tool_choice)),
    ] + seq![json_member("\"parallel_tool_calls\""@, json_bool(r.parallel_tool_calls))] + seq![
        json_member(
            "\"reasoning\""@,
            match r.reasoning {
                Some(json) => json,
                None => "null"@,
            },
        ),
    ] + seq![json_member("\"store\""@, json_bool(r.store))] + seq![
        json_member("\"stream\""@, json_bool(r.stream)),
    ] + optional_member("\"stream_options\""@, r.stream_options) + seq![
        json_member(
            "\"include\""@,
            json_array(r.includes.map_values(|text: Seq<char>| json_string(text))),
        ),
    ] + optional_member("\"service_tier\""@, json_optional_string(r.service_tier))
        + optional_member("\"prompt_cache_key\""@, json_optional_string(r.prompt_cache_key))
        + optional_member("\"text\""@, r.text) + optional_member(
        "\"client_metadata\""@,
        match r.client_metadata {
            Some(pairs) => Some(json_pairs(pairs)),
            None => None,
        },
    )
}

/// The body of a request: one JSON object without any spacing of its own.
pub open spec fn body_text(r: RequestView) -> Seq<char> {
    json_object(
        members_before_input(r) + seq![json_member("\"input\""@, json_array(r.input))]
            + members_after_input(r),
    )
}

/// A request body, encoded once and sent as it is.
#[derive(Debug)]
pub struct EncodedJsonBody {
    text: String,
}

impl View for EncodedJsonBody {
    type V = Seq<char>;

    closed spec fn view(&self) -> Seq<char> {
        self.text@
    }
}

impl EncodedJsonBody {
    /// Takes `text` as a body.
    pub(crate) fn from_text(text: String) -> (body: EncodedJsonBody)
        ensures
            body@ == text@,
    {
        EncodedJsonBody { text }
    }

    /// The body as text.
    pub fn as_str(&self) -> (text: &str)
        ensures
            text@ == self@,
    {
        self.text.as_str()
    }

    /// The bytes that go over the wire.
    pub fn as_bytes(&self) -> (bytes: &[u8])
        ensures
            bytes@ == vstd::utf8::encode_utf8(self@),
    {
        self.text.as_str().as_bytes()
    }
}

/// A request that borrows its parts and sends a given sequence of raw items as
/// its input.
pub struct RawResponsesApiRequest<'a> {
    model: &'a str,
    instructions: &'a str,
    input: Vec<&'a RawJson>,
    tools: Option<&'a RawJson>,
    tool_choice: &'a str,
    parallel_tool_calls: bool,
    reasoning: Option<&'a RawJson>,
    store: bool,
    stream: bool,
    stream_options: Option<&'a RawJson>,
    includes: &'a Vec<String>,
    service_tier: Option<&'a String>,
    prompt_cache_key: Option<&'a String>,
    text: Option<&'a RawJson>,
    client_metadata: Option<&'a ClientMetadata>,
}

/// The texts of borrowed raw values.
pub open spec fn borrowed_texts(items: Seq<&RawJson>) -> Seq<Seq<char>> {
    items.map_values(|item: &RawJson| item@)
}

/// The text of an optional borrowed raw value.
pub open spec fn borrowed_text(value: Option<&RawJson>) -> Option<Seq<char>> {
    match value {
        Some(raw) => Some(raw@),
        None => None,
    }
}

/// The text of an optional borrowed string.
pub open spec fn borrowed_string(value: Option<&String>) -> Option<Seq<char>> {
    match value {
        Some(text) => Some(text@),
        None => None,
    }
}

impl<'a> View for RawResponsesApiRequest<'a> {
    type V = RequestView;

    closed spec fn view(&self) -> RequestView {
        RequestView {
            model: self.model@,
            instructions: self.instructions@,
            input: borrowed_texts(self.input@),
            tools: borrowed_text(self.tools),
            tool_choice: self.tool_choice@,
            parallel_tool_calls: self.parallel_tool_calls,
            reasoning: borrowed_text(self.reasoning),
            store: self.store,
            stream: self.stream,
            stream_options: borrowed_text(self.stream_options),
            includes: texts(self.includes@),
            service_tier: borrowed_string(self.service_tier),
            prompt_cache_key: borrowed_string(self.prompt_cache_key),
            text: borrowed_text(self.text),
            client_metadata: match self.client_metadata {
                Some(metadata) => Some(metadata@),
                None => None,
            },
        }
    }
}

impl<'a> RawResponsesApiRequest<'a> {
    /// `request` with `retained_prefix` followed by `fresh_suffix` as its input.
    /// The request's own input is not used.
    pub fn new(
        request: &'a ResponsesApiRequest,
        retained_prefix: &'a [RawJson],
        fresh_suffix: &'a [RawJson],
    ) -> (raw: RawResponsesApiRequest<'a>)
        ensures
            raw@ == (RequestView {
                input: raw_texts(retained_prefix@) + raw_texts(fresh_suffix@),
                ..request@
            }),
    {
        let mut input: Vec<&'a RawJson> = Vec::new();
        let mut i: usize = 0;
        while i < retained_prefix.len()
            invariant
                i <= retained_prefix@.len(),
                borrowed_texts(input@) == raw_texts(retained_prefix@).take(i as int),
            decreases retained_prefix.len() - i,
        {
            let ghost before = input@;
            input.push(&retained_prefix[i]);
            i = i + 1;
            assert(borrowed_texts(input@) =~= borrowed_texts(before).push(
                retained_prefix@[i - 1]@,
            ));
            assert(borrowed_texts(input@) =~= raw_texts(retained_prefix@).take(i as int));
        }
        let mut j: usize = 0;
        while j < fresh_suffix.len()
            invariant
                j <= fresh_suffix@.len(),
                borrowed_texts(input@) == raw_texts(retained_prefix@) + raw_texts(
                    fresh_suffix@,
                ).take(j as int),
            decreases fresh_suffix.len() - j,
        {
            let ghost before = input@;
            input.push(&fresh_suffix[j]);
            j = j + 1;
            assert(borrowed_texts(input@) =~= borrowed_texts(before).push(fresh_suffix@[j - 1]@));
            assert(borrowed_texts(input@) =~= raw_texts(retained_prefix@) + raw_texts(
                fresh_suffix@,
            ).take(j as int));
        }
        RawResponsesApiRequest {
            model: request.model.as_str(),
            instructions: request.instructions.as_str(),
            input,
            tools: request.tools.as_ref(),
            tool_choice: request.tool_choice.as_str(),
            parallel_tool_calls: request.parallel_tool_calls,
            reasoning: request.reasoning.as_ref(),
            store: request.store,
            stream: request.stream,
            stream_options: request.stream_options.as_ref(),
            includes: &request.includes,
            service_tier: request.service_tier.as_ref(),
            prompt_cache_key: request.prompt_cache_key.as_ref(),
            text: request.text.as_ref(),
            client_metadata: request.client_metadata.as_ref(),
        }
    }

    /// Writes the request as a JSON body.
    pub fn encode(&self) -> (res: Result<EncodedJsonBody, String>)
        ensures
            res is Ok,
            res->Ok_0@ == body_text(self@),
            is_request(self@),
    {
        let mut members = self.encode_before_input()?;
        let input = self.encode_input();
        push_member(&mut members, "\"input\"", input.as_str());
        let ghost front = members@;
        let mut settings = self.encode_after_input()?;
        let ghost back = settings@;
        members.append(&mut settings);
        assert(texts(members@) =~= texts(front) + texts(back));
        let joined = join_with_commas(&members);
        Ok(EncodedJsonBody::from_text(enclose("{", joined.as_str(), "}")))
    }

    /// Writes the members that stand before the input.
    fn encode_before_input(&self) -> (res: Result<Vec<String>, String>)
        ensures
            res is Ok,
            texts(res->Ok_0@) == members_before_input(self@),
    {
        let mut members: Vec<String> = Vec::new();
        push_string(&mut members, "\"model\"", self.model)?;
        if !self.instructions.is_empty() {
            push_string(&mut members, "\"instructions\"", self.instructions)?;
        }
        assert(texts(members@) =~= members_before_input(self@));
        Ok(members)
    }

    /// Writes the members that stand behind the input.
    fn encode_after_input(&self) -> (res: Result<Vec<String>, String>)
        ensures
            res is Ok,
            texts(res->Ok_0@) == members_after_input(self@),
            all_raw_json(self@.input) ==> is_request(self@),
    {
        let mut members: Vec<String> = Vec::new();
        push_optional_raw(&mut members, "\"tools\"", self.tools);
        assert(texts(members@) =~= optional_member("\"tools\""@, self@.tools));
        push_string(&mut members, "\"tool_choice\"", self.tool_choice)?;
        push_bool(&mut members, "\"parallel_tool_calls\"", self.parallel_tool_calls);
        match self.reasoning {
            Some(raw) => push_member(&mut members, "\"reasoning\"", raw.get()),
            None => push_member(&mut members, "\"reasoning\"", "null"),
        }
        push_bool(&mut members, "\"store\"", self.store);
        push_bool(&mut members, "\"stream\"", self.stream);
        push_optional_raw(&mut members, "\"stream_options\"", self.stream_options);
        let includes = encode_strings(self.includes)?;
        push_member(&mut members, "\"include\"", includes.as_str());
        push_optional_string(&mut members, "\"service_tier\"", self.service_tier)?;
        push_optional_string(&mut members, "\"prompt_cache_key\"", self.prompt_cache_key)?;
        push_optional_raw(&mut members, "\"text\"", self.text);
        let metadata = match self.client_metadata {
            Some(metadata) => Some(encode_metadata(metadata)?),
            None => None,
        };
        push_optional_json(&mut members, "\"client_metadata\"", &metadata);
        Ok(members)
    }

    /// Writes the input as a JSON array, each item as the text it is.
    fn encode_input(&self) -> (json: String)
        ensures
            json@ == json_array(self@.input),
            all_raw_json(self@.input),
    {
        let mut parts: Vec<String> = Vec::new();
        let mut i: usize = 0;
        assert(texts(parts@) =~= self@.input.take(0));
        while i < self.input.len()
            invariant
                i <= self.input@.len(),
                self@.input == borrowed_texts(self.input@),
                texts(parts@) == self@.input.take(i as int),
                all_raw_json(self@.input.take(i as int)),
            decreases self.input.len() - i,
        {
            let ghost before = parts@;
            parts.push(self.input[i].get().to_owned());
            assert(texts(parts@) =~= texts(before).push(self@.input[i as int]));
            i = i + 1;
            assert(texts(parts@) =~= self@.input.take(i as int));
        }
        assert(self@.input.take(i as int) =~= self@.input);
        let joined = join_with_commas(&parts);
        enclose("[", joined.as_str(), "]")
    }
}

impl ResponsesApiRequest {
    /// Writes the request, its own input included, as a JSON body.
    pub fn encode(&self) -> (res: Result<EncodedJsonBody, String>)
        ensures
            res is Ok,
            res->Ok_0@ == body_text(self@),
            is_request(self@),
    {
        let raw = RawResponsesApiRequest::new(self, self.input.as_slice(), &[]);
        assert(raw@ =~= self@);
        raw.encode()
    }
}

/// Writes strings as a JSON array.
fn encode_strings(strings: &Vec<String>) -> (res: Result<String, String>)
    ensures
        res is Ok,
        res->Ok_0@ == json_array(
            texts(strings@).map_values(|text: Seq<char>| json_string(text)),
        ),
{
    let mut parts: Vec<String> = Vec::new();
    let mut i: usize = 0;
    let ghost wanted = texts(strings@).map_values(|text: Seq<char>| json_string(text));
    assert(texts(parts@) =~= wanted.take(0));
    while i < strings.len()
        invariant
            i <= strings@.len(),
            wanted == texts(strings@).map_values(|text: Seq<char>| json_string(text)),
            texts(parts@) == wanted.take(i as int),
        decreases strings.len() - i,
    {
        let ghost before = parts@;
        parts.push(serialize_str(strings[i].as_str())?);
        assert(texts(parts@) =~= texts(before).push(wanted[i as int]));
        i = i + 1;
        assert(texts(parts@) =~= wanted.take(i as int));
    }
    assert(wanted.take(i as int) =~= wanted);
    let joined = join_with_commas(&parts);
    Ok(enclose("[", joined.as_str(), "]"))
}

/// Writes metadata as a JSON object.
fn encode_metadata(metadata: &ClientMetadata) -> (res: Result<String, String>)
    ensures
        res is Ok,
        res->Ok_0@ == json_pairs(metadata@),
        distinct_keys(metadata@),
{
    let pairs = metadata.pairs();
    let mut members: Vec<String> = Vec::new();
    let mut i: usize = 0;
    let ghost wanted = pair_texts(pairs@).map_values(
        |pair: (Seq<char>, Seq<char>)| json_member(json_string(pair.0), json_string(pair.1)),
    );
    assert(texts(members@) =~= wanted.take(0));
    while i < pairs.len()
        invariant
            i <= pairs@.len(),
            wanted == pair_texts(pairs@).map_values(
                |pair: (Seq<char>, Seq<char>)|
                    json_member(json_string(pair.0), json_string(pair.1)),
            ),
            texts(members@) == wanted.take(i as int),
        decreases pairs.len() - i,
    {
        let key = serialize_str(pairs[i].0.as_str())?;
        push_string(&mut members, key.as_str(), pairs[i].1.as_str())?;
        i = i + 1;
        assert(texts(members@) =~= wanted.take(i as int));
    }
    assert(wanted.take(i as int) =~= wanted);
    let joined = join_with_commas(&members);
    Ok(enclose("{", joined.as_str(), "}"))
}

/// Adds the member `key` with the JSON text `value`.
fn push_member(members: &mut Vec<String>, key: &str, value: &str)
    ensures
        texts(final(members)@) == texts(old(members)@) + seq![json_member(key@, value@)],
{
    members.push(enclose(key, ":", value));
    assert(texts(members@) =~= texts(old(members)@) + seq![json_member(key@, value@)]);
}

/// Adds the member `key` with a string as its value.
fn push_string(members: &mut Vec<String>, key: &str, value: &str) -> (res: Result<(), String>)
    ensures
        res is Ok,
        texts(final(members)@) == texts(old(members)@) + seq![
            json_member(key@, json_string(value@)),
        ],
{
    let json = serialize_str(value)?;
    push_member(members, key, json.as_str());
    Ok(())
}

/// Adds the member `key` with a truth value.
fn push_bool(members: &mut Vec<String>, key: &str, value: bool)
    ensures
        texts(final(members)@) == texts(old(members)@) + seq![
            json_member(key@, json_bool(value)),
        ],
{
    if value {
        push_member(members, key, "true");
    } else {
        push_member(members, key, "false");
    }
}

/// Adds the member `key` when there is a raw value for it.
fn push_optional_raw(members: &mut Vec<String>, key: &str, value: Option<&RawJson>)
    ensures
        texts(final(members)@) == texts(old(members)@) + optional_member(
            key@,
            borrowed_text(value),
        ),
        optional_raw_json(borrowed_text(value)),
{
    if let Some(raw) = value {
        push_member(members, key, raw.get());
    }
    assert(texts(members@) =~= texts(old(members)@) + optional_member(key@, borrowed_text(value)));
}

/// Adds the member `key` when there is a JSON text for it.
fn push_optional_json(members: &mut Vec<String>, key: &str, value: &Option<String>)
    ensures
        texts(final(members)@) == texts(old(members)@) + optional_member(key@, optional_text(*value)),
{
    if let Some(json) = value {
        push_member(members, key, json.as_str());
    }
    assert(texts(members@) =~= texts(old(members)@) + optional_member(key@, optional_text(*value)));
}

/// Adds the member `key` when there is a string for it.
fn push_optional_string(members: &mut Vec<String>, key: &str, value: Option<&String>) -> (res:
    Result<(), String>)
    ensures
        res is Ok,
        texts(final(members)@) == texts(old(members)@) + optional_member(
            key@,
            json_optional_string(borrowed_string(value)),
        ),
{
    if let Some(text) = value {
        push_string(members, key, text.as_str())?;
    }
    assert(texts(members@) =~= texts(old(members)@) + optional_member(
        key@,
        json_optional_string(borrowed_string(value)),
    ));
    Ok(())
}

} // verus!
