//! The metadata that a client sends with a request.

use vstd::prelude::*;

verus! {

/// The texts of key and value pairs.
pub open spec fn pair_texts(pairs: Seq<(String, String)>) -> Seq<(Seq<char>, Seq<char>)> {
    pairs.map_values(|pair: (String, String)| (pair.0@, pair.1@))
}

/// No key occurs twice.
pub open spec fn distinct_keys(pairs: Seq<(Seq<char>, Seq<char>)>) -> bool {
    forall|i: int, j: int|
        0 <= i < j < pairs.len() ==> (#[trigger] pairs[i]).0 != (#[trigger] pairs[j]).0
}

/// Keys with one value each, in the order in which they are written.
#[derive(Debug)]
pub struct ClientMetadata {
    pairs: Vec<(String, String)>,
}

impl View for ClientMetadata {
    type V = Seq<(Seq<char>, Seq<char>)>;

    closed spec fn view(&self) -> Seq<(Seq<char>, Seq<char>)> {
        pair_texts(self.pairs@)
    }
}

impl ClientMetadata {
    /// No key occurs twice.
    #[verifier::type_invariant]
    spec fn keys_are_distinct(self) -> bool {
        distinct_keys(pair_texts(self.pairs@))
    }

    /// No metadata.
    pub fn new() -> (metadata: ClientMetadata)
        ensures
            metadata@ == Seq::<(Seq<char>, Seq<char>)>::empty(),
    {
        let pairs: Vec<(String, String)> = Vec::new();
        assert(pair_texts(pairs@) =~= seq![]);
        ClientMetadata { pairs }
    }

    /// Gives `key` a value. A key that had one keeps its place, and its earlier
    /// value is handed back; a new key comes last.
    pub fn insert(&mut self, key: String, value: String) -> (before: Option<String>)
        ensures
            distinct_keys(final(self)@),
            match before {
                Some(earlier) => exists|i: int|
                    0 <= i < old(self)@.len() && #[trigger] old(self)@[i] == (key@, earlier@)
                        && final(self)@ == old(self)@.update(i, (key@, value@)),
                None => final(self)@ == old(self)@.push((key@, value@)) && forall|i: int|
                    0 <= i < old(self)@.len() ==> (#[trigger] old(self)@[i]).0 != key@,
            },
    {
        proof {
            use_type_invariant(&*self);
        }
        let mut pairs: Vec<(String, String)> = Vec::new();
        assert(pair_texts(pairs@) =~= seq![]);
        std::mem::swap(&mut pairs, &mut self.pairs);
        let ghost texts = pair_texts(pairs@);
        let mut i: usize = 0;
        while i < pairs.len()
            invariant
                i <= pairs@.len(),
                texts == pair_texts(pairs@),
                texts == old(self)@,
                distinct_keys(texts),
                forall|k: int| 0 <= k < i ==> (#[trigger] texts[k]).0 != key@,
            decreases pairs.len() - i,
        {
            if pairs[i].0 == key {
                let (_, earlier) = pairs.remove(i);
                pairs.insert(i, (key, value));
                assert(pair_texts(pairs@) =~= texts.update(i as int, (key@, value@)));
                assert(texts[i as int] == (key@, earlier@));
                self.pairs = pairs;
                return Some(earlier);
            }
            i = i + 1;
        }
        pairs.push((key, value));
        assert(pair_texts(pairs@) =~= texts.push((key@, value@)));
        self.pairs = pairs;
        None
    }

    /// The pairs, in the order in which they are written.
    pub fn pairs(&self) -> (pairs: &Vec<(String, String)>)
        ensures
            pair_texts(pairs@) == self@,
            distinct_keys(self@),
    {
        proof {
            use_type_invariant(self);
        }
        &self.pairs
    }
}

/// Keys are distinct exactly where no two places hold the same one.
pub proof fn distinct_keys_stand_once(pairs: Seq<(Seq<char>, Seq<char>)>)
    ensures
        distinct_keys(pairs) <==> forall|i: int, j: int|
            0 <= i < pairs.len() && 0 <= j < pairs.len() && (#[trigger] pairs[i]).0 == (
            #[trigger] pairs[j]).0 ==> i == j,
{
}

} // verus!
