//! Sets of input handles, held in the hash set of `rustc_hash`.

use vstd::prelude::*;
use rustc_hash::{FxHashSet, FxHasher};
use std::hash::BuildHasherDefault;

verus! {

/// The hasher of `rustc_hash`, declared so that its hash sets can be held;
/// nothing is assumed of it.
#[verifier::external_type_specification]
#[verifier::external_body]
pub struct ExFxHasher(FxHasher);

/// `std::hash::BuildHasherDefault`, which builds the hashers of
/// `rustc_hash`'s sets; declared so that those sets can be held, nothing is
/// assumed of it.
#[verifier::external_type_specification]
#[verifier::external_body]
#[verifier::reject_recursive_types(H)]
pub struct ExBuildHasherDefault<H>(BuildHasherDefault<H>);

/// A set of input handles.
pub type IdSet = FxHashSet<u64>;

/// An empty set of handles.
pub fn new_id_set() -> (r: IdSet)
    ensures
        r@ == Set::<u64>::empty(),
{
    FxHashSet::default()
}

/// Relies on `HashSet::insert` (over the `FxHasher` of `rustc_hash`): the
/// handle is in the set afterwards, and nothing else changes.
#[verifier::external_body]
pub(crate) fn insert_id(s: &mut IdSet, id: u64)
    ensures
        final(s)@ == old(s)@.insert(id),
{
    s.insert(id);
}

/// Relies on `HashSet::contains` (over the `FxHasher` of `rustc_hash`):
/// membership of the handle.
#[verifier::external_body]
pub(crate) fn contains_id(s: &IdSet, id: u64) -> (r: bool)
    ensures
        r == s@.contains(id),
{
    s.contains(&id)
}

/// Relies on `HashSet::iter` (over the `FxHasher` of `rustc_hash`): each
/// handle of the set once, in the order in which the set is walked.
#[verifier::external_body]
pub(crate) fn ids_of(s: &IdSet) -> (r: Vec<u64>)
    ensures
        r@.to_set() == s@,
        r@.no_duplicates(),
{
    s.iter().copied().collect()
}

/// The set of the handles in `ids`.
pub fn id_set_from(ids: &Vec<u64>) -> (r: IdSet)
    ensures
        r@ == ids@.to_set(),
{
    let mut r = new_id_set();
    let mut i: usize = 0;
    while i < ids.len()
        invariant
            i <= ids@.len(),
            forall|k: u64| r@.contains(k) <==> exists|j: int| 0 <= j < i && ids@[j] == k,
        decreases ids@.len() - i,
    {
        insert_id(&mut r, ids[i]);
        i = i + 1;
    }
    assert(r@ =~= ids@.to_set());
    r
}

/// The handles of `a` that are not in `b`.
pub fn id_set_difference(a: &IdSet, b: &IdSet) -> (r: IdSet)
    ensures
        r@ == a@.difference(b@),
{
    let items = ids_of(a);
    let mut r = new_id_set();
    let mut i: usize = 0;
    while i < items.len()
        invariant
            i <= items@.len(),
            items@.to_set() == a@,
            forall|k: u64|
                r@.contains(k) <==> (exists|j: int| 0 <= j < i && items@[j] == k) && !b@.contains(k),
        decreases items@.len() - i,
    {
        let k = items[i];
        if !contains_id(b, k) {
            insert_id(&mut r, k);
        }
        i = i + 1;
    }
    assert forall|k: u64| r@.contains(k) <==> a@.difference(b@).contains(k) by {
        if a@.contains(k) {
            assert(items@.to_set().contains(k));
            assert(items@.contains(k));
        }
        if exists|j: int| 0 <= j < items@.len() && items@[j] == k {
            assert(items@.contains(k));
            assert(items@.to_set().contains(k));
        }
    }
    assert(r@ =~= a@.difference(b@));
    r
}

} // verus!
