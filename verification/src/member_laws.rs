//! What each part of a request does to its body.

use vstd::prelude::*;

use crate::body_laws::joined_in_two_parts;
use crate::json::{
    comma_joined, json_array, json_bool, json_member, json_object, json_string, texts,
};
use crate::metadata::{distinct_keys, pair_texts};
use crate::raw::{is_raw_json, raw_texts, RawJson};
use crate::request::{
    body_text, is_request, json_optional_string, json_pairs, members_after_input,
    members_before_input, optional_member, RequestView, ResponsesApiRequest,
};

verus! {

/// A request in its contents is the request in its parts: every text as it is,
/// every list item by item, and what is absent is absent.
pub proof fn request_contents_are_its_parts(request: ResponsesApiRequest)
    ensures
        request@.model == request.model@,
        request@.instructions == request.instructions@,
        request@.input.len() == request.input@.len(),
        forall|i: int|
            0 <= i < request.input@.len() ==> #[trigger] request@.input[i] == request.input@[i]@,
        request@.tool_choice == request.tool_choice@,
        request@.parallel_tool_calls == request.parallel_tool_calls,
        request@.store == request.store,
        request@.stream == request.stream,
        request@.includes.len() == request.includes@.len(),
        forall|i: int|
            0 <= i < request.includes@.len() ==> #[trigger] request@.includes[i]
                == request.includes@[i]@,
        request@.tools is Some <==> request.tools is Some,
        request.tools is Some ==> request@.tools->Some_0 == request.tools->Some_0@,
        request@.reasoning is Some <==> request.reasoning is Some,
        request.reasoning is Some ==> request@.reasoning->Some_0 == request.reasoning->Some_0@,
        request@.stream_options is Some <==> request.stream_options is Some,
        request.stream_options is Some ==> request@.stream_options->Some_0
            == request.stream_options->Some_0@,
        request@.service_tier is Some <==> request.service_tier is Some,
        request.service_tier is Some ==> request@.service_tier->Some_0
            == request.service_tier->Some_0@,
        request@.prompt_cache_key is Some <==> request.prompt_cache_key is Some,
        request.prompt_cache_key is Some ==> request@.prompt_cache_key->Some_0
            == request.prompt_cache_key->Some_0@,
        request@.text is Some <==> request.text is Some,
        request.text is Some ==> request@.text->Some_0 == request.text->Some_0@,
        request@.client_metadata is Some <==> request.client_metadata is Some,
        request.client_metadata is Some ==> request@.client_metadata->Some_0
            == request.client_metadata->Some_0@,
{
}

/// The texts of a list stand for its elements one by one.
pub proof fn texts_are_element_by_element(
    strings: Seq<String>,
    items: Seq<RawJson>,
    pairs: Seq<(String, String)>,
    i: int,
)
    ensures
        texts(strings).len() == strings.len(),
        0 <= i < strings.len() ==> texts(strings)[i] == strings[i]@,
        raw_texts(items).len() == items.len(),
        0 <= i < items.len() ==> raw_texts(items)[i] == items[i]@,
        pair_texts(pairs).len() == pairs.len(),
        0 <= i < pairs.len() ==> pair_texts(pairs)[i] == (pairs[i].0@, pairs[i].1@),
{
}

/// `parts` one behind the other.
spec fn concatenated(parts: Seq<Seq<char>>) -> Seq<char>
    decreases parts.len(),
{
    if parts.len() == 0 {
        seq![]
    } else {
        concatenated(parts.drop_last()) + parts.last()
    }
}

proof fn concatenated_around(parts: Seq<Seq<char>>, k: int)
    requires
        0 <= k < parts.len(),
    ensures
        concatenated(parts) == concatenated(parts.take(k)) + parts[k] + concatenated(
            parts.skip(k + 1),
        ),
    decreases parts.len(),
{
    if k == parts.len() - 1 {
        assert(parts.take(k) =~= parts.drop_last());
        assert(concatenated(parts.skip(k + 1)) =~= seq![]);
        assert(concatenated(parts) =~= concatenated(parts.take(k)) + parts[k] + concatenated(
            parts.skip(k + 1),
        ));
    } else {
        concatenated_around(parts.drop_last(), k);
        assert(parts.drop_last().take(k) =~= parts.take(k));
        assert(parts.drop_last().skip(k + 1) =~= parts.skip(k + 1).drop_last());
        assert(parts.skip(k + 1).last() == parts.last());
        assert(concatenated(parts) =~= concatenated(parts.take(k)) + parts[k] + concatenated(
            parts.skip(k + 1),
        ));
    }
}

/// The members of `groups`, one group behind the other.
spec fn all_members(groups: Seq<Seq<Seq<char>>>) -> Seq<Seq<char>>
    decreases groups.len(),
{
    if groups.len() == 0 {
        seq![]
    } else {
        all_members(groups.drop_last()) + groups.last()
    }
}

/// What a group of at most one member adds to an object that has begun.
spec fn addition(group: Seq<Seq<char>>) -> Seq<char> {
    if group.len() == 0 {
        seq![]
    } else {
        ","@ + group[0]
    }
}

proof fn object_grows_by_groups(first: Seq<char>, groups: Seq<Seq<Seq<char>>>)
    requires
        forall|i: int| 0 <= i < groups.len() ==> (#[trigger] groups[i]).len() <= 1,
    ensures
        comma_joined(seq![first] + all_members(groups)) == first + concatenated(
            groups.map_values(|group: Seq<Seq<char>>| addition(group)),
        ),
    decreases groups.len(),
{
    let additions = groups.map_values(|group: Seq<Seq<char>>| addition(group));
    if groups.len() == 0 {
        assert(seq![first] + all_members(groups) =~= seq![first]);
        assert(first + concatenated(additions) =~= first);
    } else {
        let front = groups.drop_last();
        let group = groups.last();
        assert forall|i: int| 0 <= i < front.len() implies (#[trigger] front[i]).len() <= 1 by {
            assert(groups[i].len() <= 1);
        }
        object_grows_by_groups(first, front);
        assert(additions.drop_last() =~= front.map_values(
            |group: Seq<Seq<char>>| addition(group),
        ));
        assert(additions.last() == addition(group));
        let members = seq![first] + all_members(front);
        assert(seq![first] + all_members(groups) =~= members + group);
        assert(groups[groups.len() - 1].len() <= 1);
        if group.len() == 0 {
            assert(members + group =~= members);
            assert(first + concatenated(additions) =~= first + concatenated(
                additions.drop_last(),
            ));
        } else {
            assert(group =~= seq![group[0]]);
            joined_in_two_parts(members, group);
            assert(comma_joined(members + group) =~= first + concatenated(additions));
        }
    }
}

/// The members of a body behind the first one, each a group of its own.
#[verifier::opaque]
spec fn further_groups(r: RequestView) -> Seq<Seq<Seq<char>>> {
    seq![
        optional_member(
            "\"instructions\""@,
            if r.instructions.len() == 0 {
                None
            } else {
                Some(json_string(r.instructions))
            },
        ),
        seq![json_member("\"input\""@, json_array(r.input))],
        optional_member("\"tools\""@, r.tools),
        seq![json_member("\"tool_choice\""@, json_string(r.tool_choice))],
        seq![json_member("\"parallel_tool_calls\""@, json_bool(r.parallel_tool_calls))],
        seq![
            json_member(
                "\"reasoning\""@,
                match r.reasoning {
                    Some(json) => json,
                    None => "null"@,
                },
            ),
        ],
        seq![json_member("\"store\""@, json_bool(r.store))],
        seq![json_member("\"stream\""@, json_bool(r.stream))],
        optional_member("\"stream_options\""@, r.stream_options),
        seq![
            json_member(
                "\"include\""@,
                json_array(r.includes.map_values(|text: Seq<char>| json_string(text))),
            ),
        ],
        optional_member("\"service_tier\""@, json_optional_string(r.service_tier)),
        optional_member("\"prompt_cache_key\""@, json_optional_string(r.prompt_cache_key)),
        optional_member("\"text\""@, r.text),
        optional_member(
            "\"client_metadata\""@,
            match r.client_metadata {
                Some(pairs) => Some(json_pairs(pairs)),
                None => None,
            },
        ),
    ]
}

proof fn groups_behind(groups: Seq<Seq<Seq<char>>>, k: int)
    requires
        0 <= k <= groups.len(),
    ensures
        all_members(groups) == all_members(groups.take(k)) + all_members(groups.skip(k)),
    decreases groups.len(),
{
    if k == groups.len() {
        assert(groups.take(k) =~= groups);
        assert(all_members(groups) =~= all_members(groups.take(k)) + all_members(groups.skip(k)));
    } else {
        groups_behind(groups.drop_last(), k);
        assert(groups.drop_last().take(k) =~= groups.take(k));
        assert(groups.drop_last().skip(k) =~= groups.skip(k).drop_last());
        assert(groups.skip(k).last() == groups.last());
        assert(all_members(groups) =~= all_members(groups.take(k)) + all_members(groups.skip(k)));
    }
}

proof fn groups_before_settings(r: RequestView)
    ensures
        seq![json_member("\"model\""@, json_string(r.model))] + all_members(
            further_groups(r).take(2),
        ) == members_before_input(r) + seq![json_member("\"input\""@, json_array(r.input))],
{
    reveal(further_groups);
    let groups = further_groups(r);
    assert(groups.take(2).drop_last() =~= groups.take(1));
    assert(groups.take(1).drop_last() =~= groups.take(0));
    assert(all_members(groups.take(0)) =~= seq![]);
    assert(all_members(groups.take(1)) =~= groups[0]);
    assert(all_members(groups.take(2)) =~= groups[0] + groups[1]);
    let first = seq![json_member("\"model\""@, json_string(r.model))];
    assert(first + all_members(groups.take(2)) =~= first + groups[0] + groups[1]);
}

proof fn groups_of_settings(r: RequestView)
    ensures
        all_members(further_groups(r).skip(2)) == members_after_input(r),
{
    reveal(further_groups);
    let groups = further_groups(r).skip(2);
    assert(all_members(groups.take(0)) =~= seq![]);
    assert(groups.take(1).drop_last() =~= groups.take(0));
    assert(all_members(groups.take(1)) =~= groups[0]);
    assert(groups.take(2).drop_last() =~= groups.take(1));
    assert(all_members(groups.take(2)) == all_members(groups.take(1)) + groups[1]);
    assert(groups.take(3).drop_last() =~= groups.take(2));
    assert(all_members(groups.take(3)) == all_members(groups.take(2)) + groups[2]);
    assert(groups.take(4).drop_last() =~= groups.take(3));
    assert(all_members(groups.take(4)) == all_members(groups.take(3)) + groups[3]);
    assert(groups.take(5).drop_last() =~= groups.take(4));
    assert(all_members(groups.take(5)) == all_members(groups.take(4)) + groups[4]);
    assert(groups.take(6).drop_last() =~= groups.take(5));
    assert(all_members(groups.take(6)) == all_members(groups.take(5)) + groups[5]);
    assert(groups.take(7).drop_last() =~= groups.take(6));
    assert(all_members(groups.take(7)) == all_members(groups.take(6)) + groups[6]);
    assert(groups.take(8).drop_last() =~= groups.take(7));
    assert(all_members(groups.take(8)) == all_members(groups.take(7)) + groups[7]);
    assert(groups.take(9).drop_last() =~= groups.take(8));
    assert(all_members(groups.take(9)) == all_members(groups.take(8)) + groups[8]);
    assert(groups.take(10).drop_last() =~= groups.take(9));
    assert(all_members(groups.take(10)) == all_members(groups.take(9)) + groups[9]);
    assert(groups.take(11).drop_last() =~= groups.take(10));
    assert(all_members(groups.take(11)) == all_members(groups.take(10)) + groups[10]);
    assert(groups.take(12).drop_last() =~= groups.take(11));
    assert(all_members(groups.take(12)) == all_members(groups.take(11)) + groups[11]);
    assert(groups.take(12) =~= groups);
}

/// The text of a body, cut into its members and the two braces.
spec fn pieces(r: RequestView) -> Seq<Seq<char>> {
    seq!["{"@, json_member("\"model\""@, json_string(r.model))] + further_groups(r).map_values(
        |group: Seq<Seq<char>>| addition(group),
    ) + seq!["}"@]
}

proof fn body_is_its_pieces(r: RequestView)
    ensures
        body_text(r) == concatenated(pieces(r)),
        pieces(r).len() == 17,
{
    let groups = further_groups(r);
    let first = json_member("\"model\""@, json_string(r.model));
    let additions = groups.map_values(|group: Seq<Seq<char>>| addition(group));
    assert(groups.len() == 14 && forall|i: int|
        0 <= i < groups.len() ==> (#[trigger] groups[i]).len() <= 1) by {
        reveal(further_groups);
    }
    object_grows_by_groups(first, groups);
    groups_behind(groups, 2);
    groups_before_settings(r);
    groups_of_settings(r);
    let members = members_before_input(r) + seq![json_member("\"input\""@, json_array(r.input))]
        + members_after_input(r);
    assert(seq![first] + all_members(groups) =~= seq![first] + all_members(groups.take(2))
        + all_members(groups.skip(2)));
    assert(body_text(r) == json_object(members));
    let parts = pieces(r);
    concatenated_around(parts, 0);
    concatenated_around(parts.skip(1), 0);
    concatenated_around(parts.skip(1).skip(1), 14);
    assert(parts.take(0) =~= seq![]);
    assert(parts.skip(1).take(0) =~= seq![]);
    assert(parts.skip(1).skip(1).take(14) =~= additions);
    assert(parts.skip(1).skip(1).skip(15) =~= seq![]);
    assert(concatenated(seq![]) =~= Seq::<char>::empty());
    assert(concatenated(parts) =~= "{"@ + (first + concatenated(additions)) + "}"@);
}

/// What the pieces of a body are.
proof fn pieces_are_these(r: RequestView)
    ensures
        pieces(r).len() == 17,
        pieces(r)[0] == "{"@,
        pieces(r)[1] == ("\"model\""@ + ":"@ + json_string(r.model)),
        pieces(r)[2] == (if r.instructions.len() > 0 {
            ","@ + ("\"instructions\""@ + ":"@ + json_string(r.instructions))
        } else {
            seq![]
        }),
        pieces(r)[3] == ","@ + ("\"input\""@ + ":"@ + ("["@ + comma_joined(r.input) + "]"@)),
        pieces(r)[4] == (if r.tools is Some {
            ","@ + ("\"tools\""@ + ":"@ + r.tools->Some_0)
        } else {
            seq![]
        }),
        pieces(r)[5] == ","@ + ("\"tool_choice\""@ + ":"@ + json_string(r.tool_choice)),
        pieces(r)[6] == (","@ + ("\"parallel_tool_calls\""@ + ":"@ + if r.parallel_tool_calls {
            "true"@
        } else {
            "false"@
        })),
        pieces(r)[7] == (","@ + ("\"reasoning\""@ + ":"@ + if r.reasoning is Some {
            r.reasoning->Some_0
        } else {
            "null"@
        })),
        pieces(r)[8] == (","@ + ("\"store\""@ + ":"@ + if r.store {
            "true"@
        } else {
            "false"@
        })),
        pieces(r)[9] == (","@ + ("\"stream\""@ + ":"@ + if r.stream {
            "true"@
        } else {
            "false"@
        })),
        pieces(r)[10] == (if r.stream_options is Some {
            ","@ + ("\"stream_options\""@ + ":"@ + r.stream_options->Some_0)
        } else {
            seq![]
        }),
        pieces(r)[11] == (","@ + ("\"include\""@ + ":"@ + ("["@ + comma_joined(
            r.includes.map_values(|text: Seq<char>| json_string(text)),
        ) + "]"@))),
        pieces(r)[12] == (if r.service_tier is Some {
            ","@ + ("\"service_tier\""@ + ":"@ + json_string(r.service_tier->Some_0))
        } else {
            seq![]
        }),
        pieces(r)[13] == (if r.prompt_cache_key is Some {
            ","@ + ("\"prompt_cache_key\""@ + ":"@ + json_string(r.prompt_cache_key->Some_0))
        } else {
            seq![]
        }),
        pieces(r)[14] == (if r.text is Some {
            ","@ + ("\"text\""@ + ":"@ + r.text->Some_0)
        } else {
            seq![]
        }),
        pieces(r)[15] == (if r.client_metadata is Some {
            ","@ + ("\"client_metadata\""@ + ":"@ + ("{"@ + comma_joined(
                r.client_metadata->Some_0.map_values(
                    |pair: (Seq<char>, Seq<char>)|
                            json_string(pair.0) + ":"@ + json_string(pair.1),
                ),
            ) + "}"@))
        } else {
            seq![]
        }),
        pieces(r)[16] == "}"@,
{
    reveal(further_groups);
    if r.client_metadata is Some {
        let pairs = r.client_metadata->Some_0;
        assert(pairs.map_values(
            |pair: (Seq<char>, Seq<char>)| json_member(json_string(pair.0), json_string(pair.1)),
        ) =~= pairs.map_values(
            |pair: (Seq<char>, Seq<char>)|
                            json_string(pair.0) + ":"@ + json_string(pair.1),
        ));
    }
}

proof fn concatenated_one_by_one(parts: Seq<Seq<char>>)
    requires
        parts.len() == 17,
    ensures
        concatenated(parts) == parts[0] + parts[1] + parts[2] + parts[3] + parts[4] + parts[5]
            + parts[6] + parts[7] + parts[8] + parts[9] + parts[10] + parts[11] + parts[12]
            + parts[13] + parts[14] + parts[15] + parts[16],
{
    assert(concatenated(parts.take(0)) =~= seq![]);
    assert(parts.take(1).drop_last() =~= parts.take(0));
    assert(concatenated(parts.take(1)) =~= parts[0]);
    assert(parts.take(2).drop_last() =~= parts.take(1));
    assert(concatenated(parts.take(2)) == concatenated(parts.take(1)) + parts[1]);
    assert(parts.take(3).drop_last() =~= parts.take(2));
    assert(concatenated(parts.take(3)) == concatenated(parts.take(2)) + parts[2]);
    assert(parts.take(4).drop_last() =~= parts.take(3));
    assert(concatenated(parts.take(4)) == concatenated(parts.take(3)) + parts[3]);
    assert(parts.take(5).drop_last() =~= parts.take(4));
    assert(concatenated(parts.take(5)) == concatenated(parts.take(4)) + parts[4]);
    assert(parts.take(6).drop_last() =~= parts.take(5));
    assert(concatenated(parts.take(6)) == concatenated(parts.take(5)) + parts[5]);
    assert(parts.take(7).drop_last() =~= parts.take(6));
    assert(concatenated(parts.take(7)) == concatenated(parts.take(6)) + parts[6]);
    assert(parts.take(8).drop_last() =~= parts.take(7));
    assert(concatenated(parts.take(8)) == concatenated(parts.take(7)) + parts[7]);
    assert(parts.take(9).drop_last() =~= parts.take(8));
    assert(concatenated(parts.take(9)) == concatenated(parts.take(8)) + parts[8]);
    assert(parts.take(10).drop_last() =~= parts.take(9));
    assert(concatenated(parts.take(10)) == concatenated(parts.take(9)) + parts[9]);
    assert(parts.take(11).drop_last() =~= parts.take(10));
    assert(concatenated(parts.take(11)) == concatenated(parts.take(10)) + parts[10]);
    assert(parts.take(12).drop_last() =~= parts.take(11));
    assert(concatenated(parts.take(12)) == concatenated(parts.take(11)) + parts[11]);
    assert(parts.take(13).drop_last() =~= parts.take(12));
    assert(concatenated(parts.take(13)) == concatenated(parts.take(12)) + parts[12]);
    assert(parts.take(14).drop_last() =~= parts.take(13));
    assert(concatenated(parts.take(14)) == concatenated(parts.take(13)) + parts[13]);
    assert(parts.take(15).drop_last() =~= parts.take(14));
    assert(concatenated(parts.take(15)) == concatenated(parts.take(14)) + parts[14]);
    assert(parts.take(16).drop_last() =~= parts.take(15));
    assert(concatenated(parts.take(16)) == concatenated(parts.take(15)) + parts[15]);
    assert(parts.take(17).drop_last() =~= parts.take(16));
    assert(concatenated(parts.take(17)) == concatenated(parts.take(16)) + parts[16]);
    assert(parts.take(17) =~= parts);
}

/// The whole body of a request, member by member. The members stand in this
/// order; empty instructions and absent parts are left out, but for an absent
/// `reasoning`, which is written as `null`. Texts are written as JSON strings, and
/// raw parts as the texts they are.
pub proof fn body_is_these_members(r: RequestView)
    ensures
        ({
            let model = ("\"model\""@ + ":"@ + json_string(r.model));
            let instructions = if r.instructions.len() > 0 {
                ","@ + ("\"instructions\""@ + ":"@ + json_string(r.instructions))
            } else {
                seq![]
            };
            let input = ","@ + ("\"input\""@ + ":"@ + ("["@ + comma_joined(r.input) + "]"@));
            let tools = if r.tools is Some {
                ","@ + ("\"tools\""@ + ":"@ + r.tools->Some_0)
            } else {
                seq![]
            };
            let tool_choice = ","@ + ("\"tool_choice\""@ + ":"@ + json_string(r.tool_choice));
            let parallel_tool_calls = ","@ + ("\"parallel_tool_calls\""@ + ":"@
                + if r.parallel_tool_calls {
                "true"@
            } else {
                "false"@
            });
            let reasoning = ","@ + ("\"reasoning\""@ + ":"@ + if r.reasoning is Some {
                r.reasoning->Some_0
            } else {
                "null"@
            });
            let store = ","@ + ("\"store\""@ + ":"@ + if r.store {
                "true"@
            } else {
                "false"@
            });
            let stream = ","@ + ("\"stream\""@ + ":"@ + if r.stream {
                "true"@
            } else {
                "false"@
            });
            let stream_options = if r.stream_options is Some {
                ","@ + ("\"stream_options\""@ + ":"@ + r.stream_options->Some_0)
            } else {
                seq![]
            };
            let includes = ","@ + ("\"include\""@ + ":"@ + ("["@ + comma_joined(
                r.includes.map_values(|text: Seq<char>| json_string(text)),
            ) + "]"@));
            let service_tier = if r.service_tier is Some {
                ","@ + ("\"service_tier\""@ + ":"@ + json_string(r.service_tier->Some_0))
            } else {
                seq![]
            };
            let prompt_cache_key = if r.prompt_cache_key is Some {
                ","@ + ("\"prompt_cache_key\""@ + ":"@ + json_string(r.prompt_cache_key->Some_0))
            } else {
                seq![]
            };
            let text = if r.text is Some {
                ","@ + ("\"text\""@ + ":"@ + r.text->Some_0)
            } else {
                seq![]
            };
            let client_metadata = if r.client_metadata is Some {
                ","@ + ("\"client_metadata\""@ + ":"@ + ("{"@ + comma_joined(
                    r.client_metadata->Some_0.map_values(
                        |pair: (Seq<char>, Seq<char>)|
                            json_string(pair.0) + ":"@ + json_string(pair.1),
                    ),
                ) + "}"@))
            } else {
                seq![]
            };
            body_text(r) == "{"@ + model + instructions + input + tools + tool_choice
                + parallel_tool_calls + reasoning + store + stream
                + stream_options + includes + service_tier
                + prompt_cache_key + text + client_metadata + "}"@
        }),
{
    body_is_its_pieces(r);
    pieces_are_these(r);
    concatenated_one_by_one(pieces(r));
}

/// A request that differs in one piece has the same body around it.
proof fn one_piece_differs(r: RequestView, other: RequestView, k: int)
    requires
        0 <= k < 17,
        forall|i: int| 0 <= i < 17 && i != k ==> #[trigger] pieces(other)[i] == pieces(r)[i],
    ensures
        body_text(other) == concatenated(pieces(r).take(k)) + pieces(other)[k] + concatenated(
            pieces(r).skip(k + 1),
        ),
{
    body_is_its_pieces(r);
    body_is_its_pieces(other);
    concatenated_around(pieces(other), k);
    assert(pieces(other).take(k) =~= pieces(r).take(k));
    assert(pieces(other).skip(k + 1) =~= pieces(r).skip(k + 1));
}

/// The model shows in the member `model` and nowhere else.
/// Whatever it is, the text around it, which is given back, is the same.
pub proof fn model_shows_in_its_member(r: RequestView) -> (around: (
    Seq<char>,
    Seq<char>,
))
    ensures
        forall|model: Seq<char>| #[trigger]
            body_text(RequestView { model, ..r }) == around.0 + (
                ("\"model\""@ + ":"@ + json_string(model))
            ) + around.1,
{
    let around = (
        concatenated(pieces(r).take(1)),
        concatenated(pieces(r).skip(2)),
    );
    assert forall|model: Seq<char>| #[trigger]
        body_text(RequestView { model, ..r }) == around.0 + (
            ("\"model\""@ + ":"@ + json_string(model))
        ) + around.1 by {
        let other = RequestView { model, ..r };
        pieces_are_these(r);
        pieces_are_these(other);
        one_piece_differs(r, other, 1);
    }
    around
}

/// Instructions show in the member `instructions`, which is left out where they are
/// empty, and nowhere else.
/// Whatever it is, the text around it, which is given back, is the same.
pub proof fn instructions_shows_in_its_member(r: RequestView) -> (around: (
    Seq<char>,
    Seq<char>,
))
    ensures
        forall|instructions: Seq<char>| #[trigger]
            body_text(RequestView { instructions, ..r }) == around.0 + (
                if instructions.len() > 0 {
                    ","@ + ("\"instructions\""@ + ":"@ + json_string(instructions))
                } else {
                    seq![]
                }
            ) + around.1,
{
    let around = (
        concatenated(pieces(r).take(2)),
        concatenated(pieces(r).skip(3)),
    );
    assert forall|instructions: Seq<char>| #[trigger]
        body_text(RequestView { instructions, ..r }) == around.0 + (
            if instructions.len() > 0 {
                ","@ + ("\"instructions\""@ + ":"@ + json_string(instructions))
            } else {
                seq![]
            }
        ) + around.1 by {
        let other = RequestView { instructions, ..r };
        pieces_are_these(r);
        pieces_are_these(other);
        one_piece_differs(r, other, 2);
    }
    around
}

/// The input shows in the member `input` and nowhere else: all items as they are,
/// with a comma between neighbours.
/// Whatever it is, the text around it, which is given back, is the same.
pub proof fn input_shows_in_its_member(r: RequestView) -> (around: (
    Seq<char>,
    Seq<char>,
))
    ensures
        forall|input: Seq<Seq<char>>| #[trigger]
            body_text(RequestView { input, ..r }) == around.0 + (
                ","@ + ("\"input\""@ + ":"@ + ("["@ + comma_joined(input) + "]"@))
            ) + around.1,
{
    let around = (
        concatenated(pieces(r).take(3)),
        concatenated(pieces(r).skip(4)),
    );
    assert forall|input: Seq<Seq<char>>| #[trigger]
        body_text(RequestView { input, ..r }) == around.0 + (
            ","@ + ("\"input\""@ + ":"@ + ("["@ + comma_joined(input) + "]"@))
        ) + around.1 by {
        let other = RequestView { input, ..r };
        pieces_are_these(r);
        pieces_are_these(other);
        one_piece_differs(r, other, 3);
    }
    around
}

/// Tools show in the member `tools`, which is left out where there are none, and
/// nowhere else.
/// Whatever it is, the text around it, which is given back, is the same.
pub proof fn tools_shows_in_its_member(r: RequestView) -> (around: (
    Seq<char>,
    Seq<char>,
))
    ensures
        forall|tools: Option<Seq<char>>| #[trigger]
            body_text(RequestView { tools, ..r }) == around.0 + (
                if tools is Some {
                    ","@ + ("\"tools\""@ + ":"@ + tools->Some_0)
                } else {
                    seq![]
                }
            ) + around.1,
{
    let around = (
        concatenated(pieces(r).take(4)),
        concatenated(pieces(r).skip(5)),
    );
    assert forall|tools: Option<Seq<char>>| #[trigger]
        body_text(RequestView { tools, ..r }) == around.0 + (
            if tools is Some {
                ","@ + ("\"tools\""@ + ":"@ + tools->Some_0)
            } else {
                seq![]
            }
        ) + around.1 by {
        let other = RequestView { tools, ..r };
        pieces_are_these(r);
        pieces_are_these(other);
        one_piece_differs(r, other, 4);
    }
    around
}

/// The choice of tools shows in the member `tool_choice` and nowhere else.
/// Whatever it is, the text around it, which is given back, is the same.
pub proof fn tool_choice_shows_in_its_member(r: RequestView) -> (around: (
    Seq<char>,
    Seq<char>,
))
    ensures
        forall|tool_choice: Seq<char>| #[trigger]
            body_text(RequestView { tool_choice, ..r }) == around.0 + (
                ","@ + ("\"tool_choice\""@ + ":"@ + json_string(tool_choice))
            ) + around.1,
{
    let around = (
        concatenated(pieces(r).take(5)),
        concatenated(pieces(r).skip(6)),
    );
    assert forall|tool_choice: Seq<char>| #[trigger]
        body_text(RequestView { tool_choice, ..r }) == around.0 + (
            ","@ + ("\"tool_choice\""@ + ":"@ + json_string(tool_choice))
        ) + around.1 by {
        let other = RequestView { tool_choice, ..r };
        pieces_are_these(r);
        pieces_are_these(other);
        one_piece_differs(r, other, 5);
    }
    around
}

/// Whether tools may be called in parallel shows in the member
/// `parallel_tool_calls` and nowhere else.
/// Whatever it is, the text around it, which is given back, is the same.
pub proof fn parallel_tool_calls_shows_in_its_member(r: RequestView) -> (around: (
    Seq<char>,
    Seq<char>,
))
    ensures
        forall|parallel_tool_calls: bool| #[trigger]
            body_text(RequestView { parallel_tool_calls, ..r }) == around.0 + (
                ","@ + ("\"parallel_tool_calls\""@ + ":"@ + if parallel_tool_calls {
                    "true"@
                } else {
                    "false"@
                })
            ) + around.1,
{
    let around = (
        concatenated(pieces(r).take(6)),
        concatenated(pieces(r).skip(7)),
    );
    assert forall|parallel_tool_calls: bool| #[trigger]
        body_text(RequestView { parallel_tool_calls, ..r }) == around.0 + (
            ","@ + ("\"parallel_tool_calls\""@ + ":"@ + if parallel_tool_calls {
                "true"@
            } else {
                "false"@
            })
        ) + around.1 by {
        let other = RequestView { parallel_tool_calls, ..r };
        pieces_are_these(r);
        pieces_are_these(other);
        one_piece_differs(r, other, 6);
    }
    around
}

/// Reasoning settings show in the member `reasoning` and nowhere else; where there
/// are none, the member is `null`.
/// Whatever it is, the text around it, which is given back, is the same.
pub proof fn reasoning_shows_in_its_member(r: RequestView) -> (around: (
    Seq<char>,
    Seq<char>,
))
    ensures
        forall|reasoning: Option<Seq<char>>| #[trigger]
            body_text(RequestView { reasoning, ..r }) == around.0 + (
                ","@ + ("\"reasoning\""@ + ":"@ + if reasoning is Some {
                    reasoning->Some_0
                } else {
                    "null"@
                })
            ) + around.1,
{
    let around = (
        concatenated(pieces(r).take(7)),
        concatenated(pieces(r).skip(8)),
    );
    assert forall|reasoning: Option<Seq<char>>| #[trigger]
        body_text(RequestView { reasoning, ..r }) == around.0 + (
            ","@ + ("\"reasoning\""@ + ":"@ + if reasoning is Some {
                reasoning->Some_0
            } else {
                "null"@
            })
        ) + around.1 by {
        let other = RequestView { reasoning, ..r };
        pieces_are_these(r);
        pieces_are_these(other);
        one_piece_differs(r, other, 7);
    }
    around
}

/// Whether the response is stored shows in the member `store` and nowhere else.
/// Whatever it is, the text around it, which is given back, is the same.
pub proof fn store_shows_in_its_member(r: RequestView) -> (around: (
    Seq<char>,
    Seq<char>,
))
    ensures
        forall|store: bool| #[trigger]
            body_text(RequestView { store, ..r }) == around.0 + (
                ","@ + ("\"store\""@ + ":"@ + if store {
                    "true"@
                } else {
                    "false"@
                })
            ) + around.1,
{
    let around = (
        concatenated(pieces(r).take(8)),
        concatenated(pieces(r).skip(9)),
    );
    assert forall|store: bool| #[trigger]
        body_text(RequestView { store, ..r }) == around.0 + (
            ","@ + ("\"store\""@ + ":"@ + if store {
                "true"@
            } else {
                "false"@
            })
        ) + around.1 by {
        let other = RequestView { store, ..r };
        pieces_are_these(r);
        pieces_are_these(other);
        one_piece_differs(r, other, 8);
    }
    around
}

/// Whether the response is streamed shows in the member `stream` and nowhere else.
/// Whatever it is, the text around it, which is given back, is the same.
pub proof fn stream_shows_in_its_member(r: RequestView) -> (around: (
    Seq<char>,
    Seq<char>,
))
    ensures
        forall|stream: bool| #[trigger]
            body_text(RequestView { stream, ..r }) == around.0 + (
                ","@ + ("\"stream\""@ + ":"@ + if stream {
                    "true"@
                } else {
                    "false"@
                })
            ) + around.1,
{
    let around = (
        concatenated(pieces(r).take(9)),
        concatenated(pieces(r).skip(10)),
    );
    assert forall|stream: bool| #[trigger]
        body_text(RequestView { stream, ..r }) == around.0 + (
            ","@ + ("\"stream\""@ + ":"@ + if stream {
                "true"@
            } else {
                "false"@
            })
        ) + around.1 by {
        let other = RequestView { stream, ..r };
        pieces_are_these(r);
        pieces_are_these(other);
        one_piece_differs(r, other, 9);
    }
    around
}

/// Stream options show in the member `stream_options`, which is left out where there
/// are none, and nowhere else.
/// Whatever it is, the text around it, which is given back, is the same.
pub proof fn stream_options_shows_in_its_member(r: RequestView) -> (around: (
    Seq<char>,
    Seq<char>,
))
    ensures
        forall|stream_options: Option<Seq<char>>| #[trigger]
            body_text(RequestView { stream_options, ..r }) == around.0 + (
                if stream_options is Some {
                    ","@ + ("\"stream_options\""@ + ":"@ + stream_options->Some_0)
                } else {
                    seq![]
                }
            ) + around.1,
{
    let around = (
        concatenated(pieces(r).take(10)),
        concatenated(pieces(r).skip(11)),
    );
    assert forall|stream_options: Option<Seq<char>>| #[trigger]
        body_text(RequestView { stream_options, ..r }) == around.0 + (
            if stream_options is Some {
                ","@ + ("\"stream_options\""@ + ":"@ + stream_options->Some_0)
            } else {
                seq![]
            }
        ) + around.1 by {
        let other = RequestView { stream_options, ..r };
        pieces_are_these(r);
        pieces_are_these(other);
        one_piece_differs(r, other, 10);
    }
    around
}

/// What is to be included shows in the member `include` and nowhere else: each text
/// as a JSON string, in order.
/// Whatever it is, the text around it, which is given back, is the same.
pub proof fn includes_shows_in_its_member(r: RequestView) -> (around: (
    Seq<char>,
    Seq<char>,
))
    ensures
        forall|includes: Seq<Seq<char>>| #[trigger]
            body_text(RequestView { includes, ..r }) == around.0 + (
                ","@ + ("\"include\""@ + ":"@ + ("["@ + comma_joined(
                    includes.map_values(|text: Seq<char>| json_string(text)),
                ) + "]"@))
            ) + around.1,
{
    let around = (
        concatenated(pieces(r).take(11)),
        concatenated(pieces(r).skip(12)),
    );
    assert forall|includes: Seq<Seq<char>>| #[trigger]
        body_text(RequestView { includes, ..r }) == around.0 + (
            ","@ + ("\"include\""@ + ":"@ + ("["@ + comma_joined(
                includes.map_values(|text: Seq<char>| json_string(text)),
            ) + "]"@))
        ) + around.1 by {
        let other = RequestView { includes, ..r };
        pieces_are_these(r);
        pieces_are_these(other);
        one_piece_differs(r, other, 11);
    }
    around
}

/// The service tier shows in the member `service_tier`, which is left out where there
/// is none, and nowhere else.
/// Whatever it is, the text around it, which is given back, is the same.
pub proof fn service_tier_shows_in_its_member(r: RequestView) -> (around: (
    Seq<char>,
    Seq<char>,
))
    ensures
        forall|service_tier: Option<Seq<char>>| #[trigger]
            body_text(RequestView { service_tier, ..r }) == around.0 + (
                if service_tier is Some {
                    ","@ + ("\"service_tier\""@ + ":"@ + json_string(service_tier->Some_0))
                } else {
                    seq![]
                }
            ) + around.1,
{
    let around = (
        concatenated(pieces(r).take(12)),
        concatenated(pieces(r).skip(13)),
    );
    assert forall|service_tier: Option<Seq<char>>| #[trigger]
        body_text(RequestView { service_tier, ..r }) == around.0 + (
            if service_tier is Some {
                ","@ + ("\"service_tier\""@ + ":"@ + json_string(service_tier->Some_0))
            } else {
                seq![]
            }
        ) + around.1 by {
        let other = RequestView { service_tier, ..r };
        pieces_are_these(r);
        pieces_are_these(other);
        one_piece_differs(r, other, 12);
    }
    around
}

/// The cache key shows in the member `prompt_cache_key`, which is left out where
/// there is none, and nowhere else.
/// Whatever it is, the text around it, which is given back, is the same.
pub proof fn prompt_cache_key_shows_in_its_member(r: RequestView) -> (around: (
    Seq<char>,
    Seq<char>,
))
    ensures
        forall|prompt_cache_key: Option<Seq<char>>| #[trigger]
            body_text(RequestView { prompt_cache_key, ..r }) == around.0 + (
                if prompt_cache_key is Some {
                    ","@ + ("\"prompt_cache_key\""@ + ":"@ + json_string(prompt_cache_key->Some_0))
                } else {
                    seq![]
                }
            ) + around.1,
{
    let around = (
        concatenated(pieces(r).take(13)),
        concatenated(pieces(r).skip(14)),
    );
    assert forall|prompt_cache_key: Option<Seq<char>>| #[trigger]
        body_text(RequestView { prompt_cache_key, ..r }) == around.0 + (
            if prompt_cache_key is Some {
                ","@ + ("\"prompt_cache_key\""@ + ":"@ + json_string(prompt_cache_key->Some_0))
            } else {
                seq![]
            }
        ) + around.1 by {
        let other = RequestView { prompt_cache_key, ..r };
        pieces_are_these(r);
        pieces_are_these(other);
        one_piece_differs(r, other, 13);
    }
    around
}

/// Text settings show in the member `text`, which is left out where there are none,
/// and nowhere else.
/// Whatever it is, the text around it, which is given back, is the same.
pub proof fn text_shows_in_its_member(r: RequestView) -> (around: (
    Seq<char>,
    Seq<char>,
))
    ensures
        forall|text: Option<Seq<char>>| #[trigger]
            body_text(RequestView { text, ..r }) == around.0 + (
                if text is Some {
                    ","@ + ("\"text\""@ + ":"@ + text->Some_0)
                } else {
                    seq![]
                }
            ) + around.1,
{
    let around = (
        concatenated(pieces(r).take(14)),
        concatenated(pieces(r).skip(15)),
    );
    assert forall|text: Option<Seq<char>>| #[trigger]
        body_text(RequestView { text, ..r }) == around.0 + (
            if text is Some {
                ","@ + ("\"text\""@ + ":"@ + text->Some_0)
            } else {
                seq![]
            }
        ) + around.1 by {
        let other = RequestView { text, ..r };
        pieces_are_these(r);
        pieces_are_these(other);
        one_piece_differs(r, other, 14);
    }
    around
}

/// Metadata shows in the member `client_metadata`, which is left out where there is
/// none, and nowhere else: each key with its own value, in order.
/// Whatever it is, the text around it, which is given back, is the same.
pub proof fn client_metadata_shows_in_its_member(r: RequestView) -> (around: (
    Seq<char>,
    Seq<char>,
))
    ensures
        forall|client_metadata: Option<Seq<(Seq<char>, Seq<char>)>>| #[trigger]
            body_text(RequestView { client_metadata, ..r }) == around.0 + (
                if client_metadata is Some {
                    ","@ + ("\"client_metadata\""@ + ":"@ + ("{"@ + comma_joined(
                        client_metadata->Some_0.map_values(
                            |pair: (Seq<char>, Seq<char>)|
                            json_string(pair.0) + ":"@ + json_string(pair.1),
                        ),
                    ) + "}"@))
                } else {
                    seq![]
                }
            ) + around.1,
{
    let around = (
        concatenated(pieces(r).take(15)),
        concatenated(pieces(r).skip(16)),
    );
    assert forall|client_metadata: Option<Seq<(Seq<char>, Seq<char>)>>| #[trigger]
        body_text(RequestView { client_metadata, ..r }) == around.0 + (
            if client_metadata is Some {
                ","@ + ("\"client_metadata\""@ + ":"@ + ("{"@ + comma_joined(
                    client_metadata->Some_0.map_values(
                        |pair: (Seq<char>, Seq<char>)|
                            json_string(pair.0) + ":"@ + json_string(pair.1),
                    ),
                ) + "}"@))
            } else {
                seq![]
            }
        ) + around.1 by {
        let other = RequestView { client_metadata, ..r };
        pieces_are_these(r);
        pieces_are_these(other);
        one_piece_differs(r, other, 15);
    }
    around
}

/// The raw parts of every request are JSON values, and no key of its metadata
/// stands twice.
pub proof fn requests_hold_json_values(r: RequestView)
    ensures
        is_request(r) <==> {
            &&& forall|i: int| 0 <= i < r.input.len() ==> is_raw_json(#[trigger] r.input[i])
            &&& r.tools is Some ==> is_raw_json(r.tools->Some_0)
            &&& r.reasoning is Some ==> is_raw_json(r.reasoning->Some_0)
            &&& r.stream_options is Some ==> is_raw_json(r.stream_options->Some_0)
            &&& r.text is Some ==> is_raw_json(r.text->Some_0)
            &&& r.client_metadata is Some ==> distinct_keys(r.client_metadata->Some_0)
        },
{
}

} // verus!
