use aho_corasick::{AhoCorasick, MatchKind};
use vstd::prelude::*;

verus! {

#[verifier::external_type_specification]
#[verifier::external_body]
pub struct ExAhoCorasick(AhoCorasick);

/// The patterns, in order, that an automaton was built from; a pattern's
/// index in this sequence is its pattern id.
pub uninterp spec fn automaton_patterns(automaton: AhoCorasick) -> Seq<Seq<u8>>;

/// The matches, as (pattern id, start, end), that a leftmost-first automaton
/// built from `patterns` reports in `haystack`, in the order of the haystack.
pub uninterp spec fn leftmost_first_matches(patterns: Seq<Seq<u8>>, haystack: Seq<u8>) -> Seq<(usize, usize, usize)>;

/// Patterns that an automaton can always be built from: at most sixteen,
/// each of at most 256 bytes.
pub open spec fn small_patterns(patterns: Seq<Seq<u8>>) -> bool {
    &&& patterns.len() <= 16
    &&& forall|i: int| 0 <= i < patterns.len() ==> #[trigger] patterns[i].len() <= 256
}

/// Builds an Aho-Corasick automaton with leftmost-first match semantics and
/// case-sensitive matching (`AhoCorasick::builder().build`). Claimed: when it
/// builds, the automaton holds `patterns` in their order; and it builds from
/// small patterns. As the source of aho-corasick shows, the builder fails
/// only when an id of its non-contiguous automaton (pattern, state,
/// transition or match) would pass `i32::MAX - 1`, or a pattern would be
/// longer than that; the contiguous and DFA forms that it then tries fall
/// back without failing. Sixteen patterns of 256 bytes make a few thousand
/// states, far below those limits. Where larger patterns fail is left
/// unsaid.
#[verifier::external_body]
fn build_leftmost_first(patterns: &Vec<Vec<u8>>) -> (res: Option<AhoCorasick>)
    ensures
        res matches Some(automaton) ==> automaton_patterns(automaton) == patterns@.map_values(|p: Vec<u8>| p@),
        small_patterns(patterns@.map_values(|p: Vec<u8>| p@)) ==> res is Some,
{
    match AhoCorasick::builder().ascii_case_insensitive(false).match_kind(MatchKind::LeftmostFirst).build(patterns) {
        Ok(automaton) => Some(automaton),
        Err(_) => None,
    }
}

/// The non-overlapping matches of `AhoCorasick::find_iter`, as (pattern id,
/// start, end). Claimed: the result is the named function of the automaton's
/// patterns and the haystack, each id indexes the patterns, and each match
/// spans an occurrence of its pattern inside the haystack.
#[verifier::external_body]
fn find_all(automaton: &AhoCorasick, haystack: &[u8]) -> (res: Vec<(usize, usize, usize)>)
    ensures
        res@ == leftmost_first_matches(automaton_patterns(*automaton), haystack@),
        forall|i: int| 0 <= i < res@.len() ==> {
            let (id, start, end) = #[trigger] res@[i];
            &&& id < automaton_patterns(*automaton).len()
            &&& start <= end <= haystack@.len()
            &&& haystack@.subrange(start as int, end as int) == automaton_patterns(*automaton)[id as int]
        },
{
    automaton.find_iter(haystack).map(|m| (m.pattern().as_usize(), m.start(), m.end())).collect()
}

/// The pattern ids of a sequence of matches.
pub open spec fn ids_of(matches: Seq<(usize, usize, usize)>) -> Seq<usize> {
    matches.map_values(|m: (usize, usize, usize)| m.0)
}

/// The pattern ids, in order, that a leftmost-first search for `patterns`
/// finds in `haystack`.
pub open spec fn match_ids(patterns: Seq<Seq<u8>>, haystack: Seq<u8>) -> Seq<usize> {
    ids_of(leftmost_first_matches(patterns, haystack))
}

/// A set of byte needles searched for with leftmost-first semantics.
#[derive(Debug)]
pub struct NeedleMatcher {
    automaton: AhoCorasick,
}

impl NeedleMatcher {
    /// The needles, in order; a needle's index is its pattern id.
    pub closed spec fn patterns(&self) -> Seq<Seq<u8>> {
        automaton_patterns(self.automaton)
    }

    /// Builds a matcher for `needles`; `None` where the automaton would
    /// exceed the size limits of its builder, which small needles never do.
    pub fn new(needles: &Vec<Vec<u8>>) -> (res: Option<Self>)
        ensures
            res matches Some(m) ==> m.patterns() == needles@.map_values(|p: Vec<u8>| p@),
            small_patterns(needles@.map_values(|p: Vec<u8>| p@)) ==> res is Some,
    {
        match build_leftmost_first(needles) {
            Some(automaton) => Some(NeedleMatcher { automaton }),
            None => None,
        }
    }

    /// Every match in `haystack`, as (pattern id, start, end).
    pub fn find_all(&self, haystack: &[u8]) -> (res: Vec<(usize, usize, usize)>)
        ensures
            res@ == leftmost_first_matches(self.patterns(), haystack@),
            forall|i: int| 0 <= i < res@.len() ==> {
                let (id, start, end) = #[trigger] res@[i];
                &&& id < self.patterns().len()
                &&& start <= end <= haystack@.len()
                &&& haystack@.subrange(start as int, end as int) == self.patterns()[id as int]
            },
    {
        find_all(&self.automaton, haystack)
    }

    /// The pattern ids of every match in `haystack`, in order.
    pub fn pattern_ids(&self, haystack: &[u8]) -> (res: Vec<usize>)
        ensures
            res@ == match_ids(self.patterns(), haystack@),
    {
        let matches = self.find_all(haystack);
        let mut ids: Vec<usize> = Vec::new();
        let mut i: usize = 0;
        while i < matches.len()
            invariant
                0 <= i <= matches@.len(),
                ids@ == ids_of(matches@.subrange(0, i as int)),
            decreases matches@.len() - i,
        {
            ids.push(matches[i].0);
            i = i + 1;
        }
        ids
    }
}

/// Whether `id` occurs in `ids`.
pub fn contains_id(ids: &Vec<usize>, id: usize) -> (res: bool)
    ensures
        res == ids@.contains(id),
{
    let mut i: usize = 0;
    while i < ids.len()
        invariant
            0 <= i <= ids@.len(),
            forall|j: int| 0 <= j < i ==> ids@[j] != id,
        decreases ids@.len() - i,
    {
        if ids[i] == id {
            return true;
        }
        i = i + 1;
    }
    false
}

} // verus!
