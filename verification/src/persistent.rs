use std::collections::hash_map::RandomState;
use vstd::prelude::*;

verus! {

/// `im::HashSet`, a persistent hash set.
#[verifier::external_type_specification]
#[verifier::external_body]
#[verifier::reject_recursive_types(A)]
#[verifier::reject_recursive_types(S)]
pub struct ExImHashSet<A, S>(im::HashSet<A, S>);

/// `im::HashMap`, a persistent hash map.
#[verifier::external_type_specification]
#[verifier::external_body]
#[verifier::reject_recursive_types(K)]
#[verifier::reject_recursive_types(V)]
#[verifier::reject_recursive_types(S)]
pub struct ExImHashMap<K, V, S>(im::HashMap<K, V, S>);

/// The texts that a set of strings holds.
pub uninterp spec fn text_set(set: im::HashSet<String, RandomState>) -> Set<Seq<char>>;

/// `im::HashSet::contains` on strings. Claimed, as its source shows: whether
/// the set holds a string equal to `text`.
#[verifier::external_body]
pub(crate) fn set_contains(set: &im::HashSet<String, RandomState>, text: &String) -> (res: bool)
    ensures
        res == text_set(*set).contains(text@),
{
    set.contains(text)
}

} // verus!
