//! The per-loop store of values that native code keeps alive on behalf of
//! scripts, addressed by keys that may travel to other threads.

use slab::Slab;
use vstd::prelude::*;

verus! {

#[verifier::external_type_specification]
#[verifier::external_body]
#[verifier::reject_recursive_types(T)]
pub struct ExSlab<T>(Slab<T>);

/// The occupied entries of a slab of store slots, by key.
pub uninterp spec fn slab_slots(s: Slab<Option<u64>>) -> Map<usize, Option<u64>>;

/// `Slab::new`: a slab with no occupied entry.
#[verifier::external_body]
fn slab_new() -> (fresh: Slab<Option<u64>>)
    ensures
        slab_slots(fresh) =~= Map::empty(),
{
    Slab::new()
}

/// `Slab::insert`: occupies a key that was vacant with `v` and returns that
/// key; every other entry stays as it was.  (The slab panics only when its
/// storage would exceed `isize::MAX` bytes, which this contract, like vstd's
/// for `Vec::push`, leaves unsaid.)
#[verifier::external_body]
fn slab_insert(s: &mut Slab<Option<u64>>, v: Option<u64>) -> (key: usize)
    ensures
        !slab_slots(*old(s)).contains_key(key),
        slab_slots(*final(s)) == slab_slots(*old(s)).insert(key, v),
{
    s.insert(v)
}

/// `Slab::get`, copied out: the entry at `key` if it is occupied.
#[verifier::external_body]
fn slab_get(s: &Slab<Option<u64>>, key: usize) -> (r: Option<Option<u64>>)
    ensures
        r == (if slab_slots(*s).contains_key(key) {
            Some(slab_slots(*s)[key])
        } else {
            None
        }),
{
    s.get(key).copied()
}

/// `Slab::index_mut` with an assignment: replaces the occupied entry at
/// `key` with `v` (the slab panics on a vacant key).
#[verifier::external_body]
fn slab_put(s: &mut Slab<Option<u64>>, key: usize, v: Option<u64>)
    requires
        slab_slots(*old(s)).contains_key(key),
    ensures
        slab_slots(*final(s)) == slab_slots(*old(s)).insert(key, v),
{
    s[key] = v;
}

/// `Slab::remove`: vacates the occupied `key` and returns what it held (the
/// slab panics on a vacant key).
#[verifier::external_body]
fn slab_remove(s: &mut Slab<Option<u64>>, key: usize) -> (v: Option<u64>)
    requires
        slab_slots(*old(s)).contains_key(key),
    ensures
        v == slab_slots(*old(s))[key],
        slab_slots(*final(s)) == slab_slots(*old(s)).remove(key),
{
    s.remove(key)
}

/// `Slab::iter`, with each entry copied out: one `(key, entry)` pair for
/// each occupied key, in increasing order of key.
#[verifier::external_body]
fn slab_entries(s: &Slab<Option<u64>>) -> (r: Vec<(usize, Option<u64>)>)
    ensures
        forall|i: int| 0 <= i < r@.len() ==> slab_slots(*s).contains_key(#[trigger] r@[i].0)
            && slab_slots(*s)[r@[i].0] == r@[i].1,
        forall|i: int, j: int| 0 <= i < j < r@.len() ==> (#[trigger] r@[i]).0 < (#[trigger] r@[j]).0,
        forall|k: usize| #[trigger] slab_slots(*s).contains_key(k) ==> exists|i: int| 0 <= i < r@.len() && (#[trigger] r@[i]).0 == k,
{
    s.iter().map(|(key, held)| (key, *held)).collect()
}

/// What a read of `key` finds in the store `m`: the value still held in the
/// slot, or nothing when the slot is empty or gone.
pub open spec fn slot_value(m: Map<usize, Option<u64>>, key: usize) -> Option<u64> {
    if m.contains_key(key) {
        m[key]
    } else {
        None
    }
}

/// The store after the value at `key` has been taken out: a live slot is
/// left empty, anything else is unchanged.
pub open spec fn after_take(m: Map<usize, Option<u64>>, key: usize) -> Map<usize, Option<u64>> {
    if m.contains_key(key) {
        m.insert(key, None)
    } else {
        m
    }
}

/// A reference to one slot of a [`RefStore`]; the slot lives until the
/// reference is released.  Copies name the same slot; the holder that
/// releases it must be the last one to use it.
#[derive(Clone, Copy, PartialEq, Eq, Structural, Debug)]
pub struct RemoteRef {
    key: usize,
}

impl RemoteRef {
    /// The key of the slot.
    pub closed spec fn spec_key(&self) -> usize {
        self.key
    }

    pub fn key(&self) -> (k: usize)
        ensures
            k == self.spec_key(),
    {
        self.key
    }
}

/// The slots in which an event loop keeps values alive for as long as a
/// [`RemoteRef`] to them exists.  A slot holds `Some` id of a value until
/// the value is taken out, and `None` afterwards.
pub struct RefStore {
    slots: Slab<Option<u64>>,
}

impl View for RefStore {
    type V = Map<usize, Option<u64>>;

    closed spec fn view(&self) -> Map<usize, Option<u64>> {
        slab_slots(self.slots)
    }
}

impl RefStore {
    /// An empty store.
    pub fn new() -> (s: RefStore)
        ensures
            s@ == Map::<usize, Option<u64>>::empty(),
    {
        RefStore { slots: slab_new() }
    }

    /// Keeps `v` in a new slot and returns the reference to it.  The slot's
    /// key was not in use before; no other slot changes.
    pub fn store_new(&mut self, v: u64) -> (r: RemoteRef)
        ensures
            !old(self)@.contains_key(r.spec_key()),
            final(self)@ == old(self)@.insert(r.spec_key(), Some(v)),
    {
        let key = slab_insert(&mut self.slots, Some(v));
        RemoteRef { key }
    }

    /// Takes the value out of the referenced slot, leaving the slot empty.
    /// Returns `None` when the slot was already emptied or released.
    pub fn retrieve(&mut self, rref: &RemoteRef) -> (r: Option<u64>)
        ensures
            r == slot_value(old(self)@, rref.spec_key()),
            final(self)@ == after_take(old(self)@, rref.spec_key()),
    {
        match slab_get(&self.slots, rref.key) {
            Some(held) => {
                slab_put(&mut self.slots, rref.key, None);
                held
            },
            None => None,
        }
    }

    /// Reads the value in the referenced slot without taking it out.
    pub fn retrieve_copy(&self, rref: &RemoteRef) -> (r: Option<u64>)
        ensures
            r == slot_value(self@, rref.spec_key()),
    {
        match slab_get(&self.slots, rref.key) {
            Some(held) => held,
            None => None,
        }
    }

    /// Frees the referenced slot once no reference to it is left; its key
    /// may then be handed out again.  Releasing a slot that is already gone
    /// changes nothing.
    pub fn release(&mut self, rref: RemoteRef) -> (r: Option<u64>)
        ensures
            r == slot_value(old(self)@, rref.spec_key()),
            final(self)@ == old(self)@.remove(rref.spec_key()),
    {
        match slab_get(&self.slots, rref.key) {
            Some(_) => slab_remove(&mut self.slots, rref.key),
            None => {
                assert(old(self)@.remove(rref.key) =~= old(self)@);
                None
            },
        }
    }

    /// The slots that still hold a value, each once, in increasing order of
    /// key, as `(key, value)` pairs.  These are the values that must be kept
    /// alive.
    pub fn held_entries(&self) -> (r: Vec<(usize, u64)>)
        ensures
            forall|a: int| 0 <= a < r@.len() ==> self@.contains_key(#[trigger] r@[a].0)
                && self@[r@[a].0] == Some(r@[a].1),
            forall|a: int, b: int| 0 <= a < b < r@.len() ==> (#[trigger] r@[a]).0 < (#[trigger] r@[b]).0,
            forall|k: usize| #[trigger] self@.contains_key(k) && self@[k] is Some
                ==> exists|a: int| 0 <= a < r@.len() && (#[trigger] r@[a]).0 == k,
    {
        let entries = slab_entries(&self.slots);
        let mut r: Vec<(usize, u64)> = Vec::new();
        let ghost mut idx: Seq<int> = Seq::empty();
        let mut i: usize = 0;
        while i < entries.len()
            invariant
                i <= entries.len(),
                idx.len() == r@.len(),
                forall|a: int| 0 <= a < r@.len() ==> 0 <= #[trigger] idx[a] < i
                    && entries@[idx[a]].0 == r@[a].0 && entries@[idx[a]].1 == Some(r@[a].1),
                forall|a: int, b: int| 0 <= a < b < r@.len() ==> #[trigger] idx[a] < #[trigger] idx[b],
                forall|j: int| 0 <= j < i && (#[trigger] entries@[j]).1 is Some
                    ==> exists|a: int| 0 <= a < r@.len() && idx[a] == j,
            decreases entries.len() - i,
        {
            let (key, held) = entries[i];
            match held {
                Some(v) => {
                    r.push((key, v));
                    proof {
                        let old_idx = idx;
                        idx = idx.push(i as int);
                        assert forall|j: int| 0 <= j < i + 1 && (#[trigger] entries@[j]).1 is Some
                            implies exists|a: int| 0 <= a < r@.len() && idx[a] == j by {
                            if j < i {
                                let a = choose|a: int| 0 <= a < old_idx.len() && old_idx[a] == j;
                                assert(idx[a] == j);
                            } else {
                                assert(idx[old_idx.len() as int] == j);
                            }
                        }
                    }
                },
                None => {
                    assert forall|j: int| 0 <= j < i + 1 && (#[trigger] entries@[j]).1 is Some
                        implies exists|a: int| 0 <= a < r@.len() && idx[a] == j by {
                        assert(j < i);
                    }
                },
            }
            i = i + 1;
        }
        proof {
            assert forall|a: int, b: int| 0 <= a < b < r@.len() implies (#[trigger] r@[a]).0 < (#[trigger] r@[b]).0 by {
                assert(idx[a] < idx[b]);
                assert(entries@[idx[a]].0 < entries@[idx[b]].0);
            }
            assert forall|a: int| 0 <= a < r@.len() implies self@.contains_key(#[trigger] r@[a].0)
                && self@[r@[a].0] == Some(r@[a].1) by {
                assert(0 <= idx[a] < entries@.len());
                assert(slab_slots(self.slots).contains_key(entries@[idx[a]].0));
            }
            assert forall|k: usize| #[trigger] self@.contains_key(k) && self@[k] is Some
                implies exists|a: int| 0 <= a < r@.len() && (#[trigger] r@[a]).0 == k by {
                assert(slab_slots(self.slots).contains_key(k));
                let j = choose|j: int| 0 <= j < entries@.len() && (#[trigger] entries@[j]).0 == k;
                assert(entries@[j].1 is Some);
                let a = choose|a: int| 0 <= a < r@.len() && idx[a] == j;
                assert(r@[a].0 == k);
            }
        }
        r
    }

    /// Whether the referenced slot still exists.
    pub fn is_live(&self, rref: &RemoteRef) -> (r: bool)
        ensures
            r == self@.contains_key(rref.spec_key()),
    {
        slab_get(&self.slots, rref.key).is_some()
    }
}

/// The parts of a strong handle recovered from a weak one: the loop's
/// sender and the loop's data, present only when both are still alive.
pub fn upgrade_parts<R, D>(remote: Option<R>, data: Option<D>) -> (r: Option<(R, D)>)
    ensures
        match (remote, data) {
            (Some(x), Some(y)) => r == Some((x, y)),
            _ => r is None,
        },
{
    match remote {
        Some(x) => match data {
            Some(y) => Some((x, y)),
            None => None,
        },
        None => None,
    }
}

/// A value stored in a fresh slot is what the first read of that slot gives
/// back, and a read that takes it leaves nothing for the next one.
pub proof fn lemma_store_then_retrieve(m: Map<usize, Option<u64>>, key: usize, v: u64)
    requires
        !m.contains_key(key),
    ensures
        slot_value(m.insert(key, Some(v)), key) == Some(v),
        slot_value(after_take(m.insert(key, Some(v)), key), key) is None,
{
}

/// Storing, taking from, or releasing one slot leaves every other slot as
/// it was.
pub proof fn lemma_slots_independent(m: Map<usize, Option<u64>>, key: usize, other: usize, v: u64)
    requires
        key != other,
    ensures
        slot_value(m.insert(key, Some(v)), other) == slot_value(m, other),
        slot_value(after_take(m, key), other) == slot_value(m, other),
        slot_value(m.remove(key), other) == slot_value(m, other),
{
}

/// After a release, the slot reads as empty.
pub proof fn lemma_release_empties(m: Map<usize, Option<u64>>, key: usize)
    ensures
        slot_value(m.remove(key), key) is None,
{
}

/// After a taking read the slot reads empty, and a second taking read
/// gives nothing.
pub proof fn lemma_copy_then_take(m: Map<usize, Option<u64>>, key: usize)
    ensures
        slot_value(after_take(m, key), key) is None,
        slot_value(after_take(after_take(m, key), key), key) is None,
{
}

} // verus!
