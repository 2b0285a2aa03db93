//! Sets and maps of texts.
use crate::text::texts;
use vstd::prelude::*;

verus! {

#[verifier::external_type_specification]
#[verifier::external_body]
#[verifier::reject_recursive_types(A)]
#[verifier::reject_recursive_types(S)]
pub struct ExHashSet<A, S>(im::HashSet<A, S>);

#[verifier::external_type_specification]
#[verifier::external_body]
#[verifier::reject_recursive_types(K)]
#[verifier::reject_recursive_types(V)]
#[verifier::reject_recursive_types(S)]
pub struct ExHashMap<K, V, S>(im::HashMap<K, V, S>);

/// The texts in a set.
pub uninterp spec fn set_texts(set: im::HashSet<String>) -> Set<Seq<char>>;

/// The texts in a map, by their names.
pub uninterp spec fn map_texts(map: im::HashMap<String, String>) -> Map<Seq<char>, Seq<char>>;

/// No texts under any names.
pub open spec fn no_texts() -> Map<Seq<char>, Seq<char>> {
    Map::empty()
}

/// Whether a list holds each member of a set, once.
pub open spec fn lists(list: Seq<Seq<char>>, set: Set<Seq<char>>) -> bool {
    &&& list.no_duplicates()
    &&& forall|text: Seq<char>| #[trigger] list.contains(text) <==> set.contains(text)
}

/// `im::HashSet::new`: nothing is in the set.
#[verifier::external_body]
pub(crate) fn new_set() -> (r: im::HashSet<String>)
    ensures
        set_texts(r) == Set::<Seq<char>>::empty(),
{
    im::HashSet::new()
}

/// `im::HashSet::iter`: walks through the members of the set, each once. In which order is left
/// unsaid, it rests on the hasher.
#[verifier::external_body]
pub(crate) fn members(set: &im::HashSet<String>) -> (r: Vec<String>)
    ensures
        lists(texts(r@), set_texts(*set)),
{
    set.iter().cloned().collect()
}

/// `im::HashMap::new`: nothing is in the map.
#[verifier::external_body]
pub(crate) fn new_map() -> (r: im::HashMap<String, String>)
    ensures
        map_texts(r) == no_texts(),
{
    im::HashMap::new()
}

/// `im::HashMap::clone`: a map that holds the same.
#[verifier::external_body]
pub(crate) fn copy_map(map: &im::HashMap<String, String>) -> (r: im::HashMap<String, String>)
    ensures
        map_texts(r) == map_texts(*map),
{
    map.clone()
}

/// `im::HashMap::eq`: whether two maps hold the same texts under the same names.
#[verifier::external_body]
pub(crate) fn same_maps(
    a: &im::HashMap<String, String>,
    b: &im::HashMap<String, String>,
) -> (r: bool)
    ensures
        r == (map_texts(*a) == map_texts(*b)),
{
    a == b
}

} // verus!
