//! A set of chunk coordinates.

use crate::world::ChunkPos;
use dashmap::DashSet;
use std::hash::RandomState;
use vstd::prelude::*;

verus! {

/// `dashmap::DashSet`, taken as it is: nothing is known of what is inside
/// but what `spec_coord_set` names.
#[verifier::external_type_specification]
#[verifier::external_body]
#[verifier::reject_recursive_types(K)]
#[verifier::reject_recursive_types(S)]
pub struct ExDashSet<K, S>(DashSet<K, S>);

/// A concurrent set of chunk coordinates, each as (x, z).
pub type CoordSet = DashSet<(i32, i32), RandomState>;

/// The coordinates that a set holds.
pub uninterp spec fn spec_coord_set(set: CoordSet) -> Set<(i32, i32)>;

/// The set without members.
pub open spec fn spec_no_coords() -> Set<(i32, i32)> {
    Set::empty()
}

/// `DashSet::new`: a set without members.
#[verifier::external_body]
fn coord_set_new() -> (set: CoordSet)
    ensures
        spec_coord_set(set) == spec_no_coords(),
{
    DashSet::new()
}

/// `DashSet::contains`: whether `key` is a member.
#[verifier::external_body]
fn coord_set_contains(set: &CoordSet, key: (i32, i32)) -> (found: bool)
    ensures
        found == spec_coord_set(*set).contains(key),
{
    set.contains(&key)
}

/// `DashSet::insert`: makes `key` a member, and says whether it was none
/// before.
#[verifier::external_body]
fn coord_set_insert(set: &mut CoordSet, key: (i32, i32)) -> (fresh: bool)
    ensures
        spec_coord_set(*final(set)) == spec_coord_set(*old(set)).insert(key),
        fresh == !spec_coord_set(*old(set)).contains(key),
{
    set.insert(key)
}

/// `DashSet::remove`: takes `key` out, and says whether it was a member.
#[verifier::external_body]
fn coord_set_remove(set: &mut CoordSet, key: (i32, i32)) -> (found: bool)
    ensures
        spec_coord_set(*final(set)) == spec_coord_set(*old(set)).remove(key),
        found == spec_coord_set(*old(set)).contains(key),
{
    set.remove(&key).is_some()
}

/// `DashSet::iter`, collected: every member once, in no particular order.
#[verifier::external_body]
fn coord_set_items(set: &CoordSet) -> (items: Vec<(i32, i32)>)
    ensures
        items@.no_duplicates(),
        items@.to_set() == spec_coord_set(*set),
{
    set.iter().map(|entry| *entry.key()).collect()
}

/// A set of chunk coordinates.
pub struct ChunkSet {
    inner: CoordSet,
}

impl View for ChunkSet {
    type V = Set<ChunkPos>;

    closed spec fn view(&self) -> Set<ChunkPos> {
        Set::new(|pos: ChunkPos| spec_coord_set(self.inner).contains((pos.x, pos.z)))
    }
}

impl ChunkSet {
    pub fn new() -> (set: ChunkSet)
        ensures
            set@ == Set::<ChunkPos>::empty(),
    {
        let set = ChunkSet { inner: coord_set_new() };
        assert(set@ =~= Set::<ChunkPos>::empty());
        set
    }

    pub fn contains(&self, pos: ChunkPos) -> (found: bool)
        ensures
            found == self@.contains(pos),
    {
        coord_set_contains(&self.inner, (pos.x, pos.z))
    }

    /// Makes `pos` a member, and says whether it was none before.
    pub fn insert(&mut self, pos: ChunkPos) -> (fresh: bool)
        ensures
            final(self)@ == old(self)@.insert(pos),
            fresh == !old(self)@.contains(pos),
    {
        let fresh = coord_set_insert(&mut self.inner, (pos.x, pos.z));
        proof {
            assert forall|p: ChunkPos| final(self)@.contains(p) == old(self)@.insert(pos).contains(
                p,
            ) by {
                assert(((p.x, p.z) == (pos.x, pos.z)) == (p == pos));
            }
            assert(self@ =~= old(self)@.insert(pos));
        }
        fresh
    }

    /// Takes `pos` out, and says whether it was a member.
    pub fn remove(&mut self, pos: ChunkPos) -> (found: bool)
        ensures
            final(self)@ == old(self)@.remove(pos),
            found == old(self)@.contains(pos),
    {
        let found = coord_set_remove(&mut self.inner, (pos.x, pos.z));
        proof {
            assert forall|p: ChunkPos| final(self)@.contains(p) == old(self)@.remove(pos).contains(
                p,
            ) by {
                assert(((p.x, p.z) == (pos.x, pos.z)) == (p == pos));
            }
            assert(self@ =~= old(self)@.remove(pos));
        }
        found
    }

    /// The members, each once, in no particular order.
    pub fn positions(&self) -> (members: Vec<ChunkPos>)
        ensures
            members@.no_duplicates(),
            members@.to_set() == self@,
            self@.finite(),
    {
        let items = coord_set_items(&self.inner);
        let mut members: Vec<ChunkPos> = Vec::new();
        let mut i: usize = 0;
        while i < items.len()
            invariant
                i <= items@.len(),
                members@.len() == i,
                forall|j: int|
                    0 <= j < i ==> (#[trigger] members@[j]).x == items@[j].0 && members@[j].z
                        == items@[j].1,
            decreases items@.len() - i,
        {
            members.push(ChunkPos::new(items[i].0, items[i].1));
            i = i + 1;
        }
        proof {
            assert forall|a: int, b: int|
                0 <= a < members@.len() && 0 <= b < members@.len() && a != b implies members@[a]
                != members@[b] by {
                assert(items@[a] != items@[b]);
            }
            assert forall|p: ChunkPos| members@.to_set().contains(p) == self@.contains(p) by {
                if members@.to_set().contains(p) {
                    let j = choose|j: int| 0 <= j < members@.len() && members@[j] == p;
                    assert(items@.to_set().contains(items@[j]));
                }
                if self@.contains(p) {
                    assert(items@.to_set().contains((p.x, p.z)));
                    let j = choose|j: int| 0 <= j < items@.len() && items@[j] == (p.x, p.z);
                    assert(members@[j] == p);
                }
            }
            assert(members@.to_set() =~= self@);
            vstd::seq_lib::seq_to_set_is_finite(members@);
        }
        members
    }
}

} // verus!
