use vstd::prelude::*;
use vstd::utf8::encode_utf8;
use crate::chars::{check_uppercase, chars_of, is_upper_case};
use crate::pokeapi::PokeApiClient;
use crate::pokeapi::slug::normalized;
use crate::text::{split_words, words};

verus! {

/// Whether a word of a question may be a creature's name: it starts with an
/// uppercase character and takes more than 2 and fewer than 20 bytes in UTF-8.
pub open spec fn is_candidate(word: Seq<char>) -> bool {
    &&& word.len() > 0
    &&& is_upper_case(word[0])
    &&& 2 < encode_utf8(word).len() < 20
}

/// The identifiers of the candidates among `ws`, in the order of `ws`.
pub open spec fn candidates_among(ws: Seq<Seq<char>>) -> Seq<Seq<char>> {
    ws.filter(|w: Seq<char>| is_candidate(w)).map_values(|w: Seq<char>| normalized(w))
}

/// The identifiers that a question offers for lookup, from left to right.
pub open spec fn name_candidates(query: Seq<char>) -> Seq<Seq<char>> {
    candidates_among(words(query))
}

/// The first of `candidates` that the lookup service knows, where `known`
/// tells which identifiers it knows.
pub open spec fn first_known(candidates: Seq<Seq<char>>, known: Set<Seq<char>>) -> Option<
    Seq<char>,
>
    decreases candidates.len(),
{
    if candidates.len() == 0 {
        None
    } else if known.contains(candidates[0]) {
        Some(candidates[0])
    } else {
        first_known(candidates.drop_first(), known)
    }
}

/// The name that a question yields, where `known` tells which identifiers the
/// lookup service knows.
pub open spec fn extracted_name(query: Seq<char>, known: Set<Seq<char>>) -> Option<Seq<char>> {
    first_known(name_candidates(query), known)
}

proof fn lemma_candidates_push(ws: Seq<Seq<char>>, w: Seq<char>)
    ensures
        candidates_among(ws.push(w)) == if is_candidate(w) {
            candidates_among(ws).push(normalized(w))
        } else {
            candidates_among(ws)
        },
{
    reveal(Seq::filter);
    assert(ws.push(w).drop_last() == ws);
}

/// A question without a word that starts in upper case and has the length of
/// a name yields no name, whatever the lookup service knows.
pub proof fn lemma_no_candidate_no_name(query: Seq<char>, known: Set<Seq<char>>)
    requires
        forall|k: int| 0 <= k < words(query).len() ==> !is_candidate(#[trigger] words(query)[k]),
    ensures
        name_candidates(query).len() == 0,
        extracted_name(query, known) is None,
{
    let ws = words(query);
    let test = |w: Seq<char>| is_candidate(w);
    assert(ws.filter(test).len() == 0) by {
        if ws.filter(test).len() > 0 {
            let w = ws.filter(test)[0];
            ws.lemma_filter_contains_rev(test, w);
            let k = choose|k: int| 0 <= k < ws.len() && ws[k] == w;
            ws.lemma_filter_pred(test, 0);
            assert(is_candidate(ws[k]));
        }
    }
}

/// The name is the first candidate that the lookup service knows: where it
/// knows none of the candidates before the one at `k`, and that one, the name
/// is that one.
pub proof fn lemma_first_known_at(candidates: Seq<Seq<char>>, known: Set<Seq<char>>, k: int)
    requires
        0 <= k < candidates.len(),
        forall|i: int| 0 <= i < k ==> !known.contains(#[trigger] candidates[i]),
        known.contains(candidates[k]),
    ensures
        first_known(candidates, known) == Some(candidates[k]),
    decreases k,
{
    if k > 0 {
        let rest = candidates.drop_first();
        assert(!known.contains(candidates[0]));
        assert forall|i: int| 0 <= i < k - 1 implies !known.contains(#[trigger] rest[i]) by {
            assert(rest[i] == candidates[i + 1]);
        }
        assert(rest[k - 1] == candidates[k]);
        lemma_first_known_at(rest, known, k - 1);
    }
}

/// The candidates of a question that are still to be checked against the
/// lookup service, in the order in which they are checked.
#[derive(Debug, PartialEq, Eq)]
pub struct NameSearch {
    remaining: Vec<String>,
}

impl View for NameSearch {
    type V = Seq<Seq<char>>;

    closed spec fn view(&self) -> Seq<Seq<char>> {
        self.remaining.deep_view()
    }
}

impl NameSearch {
    /// The identifier to check next; `None` when none is left, and the
    /// question then yields no name.
    pub fn candidate(&self) -> (next: Option<String>)
        ensures
            match next {
                Some(name) => self@.len() > 0 && name@ == self@[0],
                None => self@.len() == 0,
            },
    {
        if self.remaining.len() == 0 {
            None
        } else {
            Some(self.remaining[0].clone())
        }
    }

    /// The search after the lookup service did not know the candidate.
    pub fn rejected(self) -> (rest: NameSearch)
        ensures
            rest@ == if self@.len() > 0 {
                self@.drop_first()
            } else {
                self@
            },
    {
        let mut remaining = self.remaining;
        if remaining.len() > 0 {
            let ghost before = remaining.deep_view();
            remaining.remove(0);
            assert(remaining.deep_view() =~= before.drop_first());
        }
        NameSearch { remaining }
    }
}

fn starts_uppercase(word: &str) -> (b: bool)
    ensures
        b == (word@.len() > 0 && is_upper_case(word@[0])),
{
    let cs = chars_of(word);
    cs.len() > 0 && check_uppercase(cs[0])
}

impl PokeApiClient {
    /// Starts the search for a creature's name in a question: every word that
    /// starts in upper case and takes 3 to 19 bytes is a candidate, under its
    /// normalized form, from left to right. The first candidate that the
    /// lookup service knows is the name.
    pub fn extract_pokemon_name(&self, query: &str) -> (search: NameSearch)
        ensures
            search@ == name_candidates(query@),
    {
        let ws = split_words(query);
        let mut remaining: Vec<String> = Vec::new();
        let ghost all = ws.deep_view();
        let mut i: usize = 0;
        proof {
            assert(all.take(0) == Seq::<Seq<char>>::empty());
            reveal(Seq::filter);
            assert(remaining.deep_view() =~= candidates_among(all.take(0)));
        }
        while i < ws.len()
            invariant
                i <= ws.len(),
                all == ws.deep_view(),
                remaining.deep_view() == candidates_among(all.take(i as int)),
            decreases ws.len() - i,
        {
            let word = ws[i].as_str();
            let ghost before = remaining.deep_view();
            proof {
                lemma_candidates_push(all.take(i as int), word@);
                assert(all.take(i as int).push(word@) == all.take(i + 1));
            }
            let bytes = word.as_bytes().len();
            if starts_uppercase(word) && bytes > 2 && bytes < 20 {
                let slug = PokeApiClient::normalize_pokemon_name(word);
                remaining.push(slug);
                assert(remaining.deep_view() =~= before.push(normalized(word@)));
            }
            i += 1;
        }
        assert(all.take(ws.len() as int) == all);
        NameSearch { remaining }
    }
}

} // verus!
