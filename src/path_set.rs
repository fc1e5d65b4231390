use linked_hash_set::LinkedHashSet;
use vstd::prelude::*;

verus! {

#[verifier::external_type_specification]
#[verifier::external_body]
#[verifier::reject_recursive_types(T)]
#[verifier::reject_recursive_types(S)]
pub struct ExLinkedHashSet<T, S>(LinkedHashSet<T, S>);

/// The paths held by an insertion-ordered set, oldest first.
pub uninterp spec fn ordered_paths(s: LinkedHashSet<String>) -> Seq<Seq<char>>;

/// Relies on `LinkedHashSet::new`: the set starts empty.
#[verifier::external_body]
pub(crate) fn new_path_set() -> (r: LinkedHashSet<String>)
    ensures
        ordered_paths(r) == Seq::<Seq<char>>::empty(),
{
    LinkedHashSet::new()
}

/// Relies on `LinkedHashSet::insert_if_absent`: a value that is already present
/// leaves the set and its order as they were; a new one goes to the back.
#[verifier::external_body]
pub(crate) fn insert_path(s: &mut LinkedHashSet<String>, p: String) -> (added: bool)
    ensures
        added == !ordered_paths(*old(s)).contains(p@),
        ordered_paths(*final(s)) == if added {
            ordered_paths(*old(s)).push(p@)
        } else {
            ordered_paths(*old(s))
        },
{
    s.insert_if_absent(p)
}

/// Relies on `LinkedHashSet::iter`: the values come out in insertion order.
#[verifier::external_body]
pub(crate) fn paths_in_order(s: &LinkedHashSet<String>) -> (r: Vec<String>)
    ensures
        r@.len() == ordered_paths(*s).len(),
        forall|i: int| 0 <= i < r@.len() ==> #[trigger] r@[i]@ == ordered_paths(*s)[i],
{
    s.iter().cloned().collect()
}

} // verus!
