//! A value tied to the thread it was made on: it may be moved to other
//! threads but is only handed out on its own.

use vstd::prelude::*;

verus! {

/// A value together with the id of the thread it belongs to.
pub struct ThreadBound<T> {
    thread_id: usize,
    t: T,
}

impl<T> ThreadBound<T> {
    /// The id of the thread the value belongs to.
    pub closed spec fn owner(&self) -> usize {
        self.thread_id
    }

    /// The value itself.
    pub closed spec fn value(&self) -> T {
        self.t
    }

    /// Binds `t` to the thread with id `thread_id`, the thread that makes it.
    pub fn new(t: T, thread_id: usize) -> (r: ThreadBound<T>)
        ensures
            r.owner() == thread_id,
            r.value() == t,
    {
        ThreadBound { thread_id, t }
    }

    /// The id of the thread the value belongs to.
    pub fn thread_id(&self) -> (id: usize)
        ensures
            id == self.owner(),
    {
        self.thread_id
    }

    /// The value, asked for from the thread with id `current`: given only
    /// to the thread it belongs to.
    pub fn get(&self, current: usize) -> (r: Option<&T>)
        ensures
            current == self.owner() ==> r == Some(&self.value()),
            current != self.owner() ==> r is None,
    {
        if current == self.thread_id {
            Some(&self.t)
        } else {
            None
        }
    }
}

} // verus!
