//! Values that can be viewed as any of a declared list of types, and the
//! choice of the view for a requested type.
//!
//! Types are named by keys (in practice a hash of their `TypeId`).  Which
//! view a request gets is decided here; producing the reference itself
//! needs type erasure, which belongs to the implementing type.

use vstd::prelude::*;

verus! {

/// A value that can be viewed as its own type or as one of the traits it
/// was declared castable to.
pub trait Castable {
    /// The keys of the types this value can be viewed as: its own type
    /// first, then each declared trait in the order of declaration.
    fn cast_keys(&self) -> Vec<u64>;
}

/// Whether `i` is the first position of `want` in `keys`.
pub open spec fn is_first_match(keys: Seq<u64>, want: u64, i: int) -> bool {
    &&& 0 <= i < keys.len()
    &&& keys[i] == want
    &&& forall|j: int| 0 <= j < i ==> keys[j] != want
}

/// The position of the first key equal to `want`, if any.
pub fn cast_position(keys: &Vec<u64>, want: u64) -> (r: Option<usize>)
    ensures
        r matches Some(i) ==> is_first_match(keys@, want, i as int),
        r is None ==> forall|j: int| 0 <= j < keys@.len() ==> keys@[j] != want,
{
    let mut i: usize = 0;
    while i < keys.len()
        invariant
            i <= keys.len(),
            forall|j: int| 0 <= j < i ==> keys@[j] != want,
        decreases keys.len() - i,
    {
        if keys[i] == want {
            return Some(i);
        }
        i = i + 1;
    }
    None
}

/// A value's own type is always found first, before any trait view.
pub proof fn lemma_own_type_first(keys: Seq<u64>)
    requires
        keys.len() > 0,
    ensures
        is_first_match(keys, keys[0], 0),
{
}

/// There is at most one first match.
pub proof fn lemma_first_match_unique(keys: Seq<u64>, want: u64, i: int, k: int)
    requires
        is_first_match(keys, want, i),
        is_first_match(keys, want, k),
    ensures
        i == k,
{
    if i < k {
        assert(keys[i] != want);
    } else if k < i {
        assert(keys[k] != want);
    }
}

} // verus!
