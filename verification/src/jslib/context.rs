//! The per-runtime context: the engine context and global object, and the
//! registry of the classes defined in it.

use std::collections::HashMap;
use vstd::prelude::*;

verus! {

broadcast use vstd::std_specs::hash::group_hash_axioms;

/// The constructor and prototype objects of a defined class, by address.
#[derive(Clone, Copy, PartialEq, Eq, Structural, Debug)]
pub struct ClassInfo {
    pub constr: u64,
    pub prototype: u64,
}

/// The engine context and global object (by address) together with the
/// classes defined so far, each under the key of its Rust type.
pub struct RJSContext {
    cx: u64,
    global: u64,
    cls_protos: HashMap<u64, ClassInfo>,
}

impl RJSContext {
    /// The engine context, by address.
    pub closed spec fn spec_cx(&self) -> u64 {
        self.cx
    }

    /// The global object, by address.
    pub closed spec fn spec_global(&self) -> u64 {
        self.global
    }

    pub fn cx(&self) -> (r: u64)
        ensures
            r == self.spec_cx(),
    {
        self.cx
    }

    pub fn global(&self) -> (r: u64)
        ensures
            r == self.spec_global(),
    {
        self.global
    }

    /// The classes defined so far, by type key.
    pub closed spec fn classes(&self) -> Map<u64, ClassInfo> {
        self.cls_protos@
    }

    /// A context in which no class is defined yet.
    pub fn new(cx: u64, global: u64) -> (r: RJSContext)
        ensures
            r.spec_cx() == cx,
            r.spec_global() == global,
            r.classes() == Map::<u64, ClassInfo>::empty(),
    {
        RJSContext { cx, global, cls_protos: HashMap::new() }
    }

    /// The class information recorded for the type with key `class`.
    pub fn get_classinfo_for(&self, class: u64) -> (r: Option<ClassInfo>)
        ensures
            r == (if self.classes().contains_key(class) {
                Some(self.classes()[class])
            } else {
                None
            }),
    {
        match self.cls_protos.get(&class) {
            Some(ci) => Some(*ci),
            None => None,
        }
    }

    /// Records `ci` for the type with key `class`, replacing what was
    /// recorded for it before.
    pub fn set_classinfo_for(&mut self, class: u64, ci: ClassInfo)
        ensures
            final(self).classes() == old(self).classes().insert(class, ci),
            final(self).spec_cx() == old(self).spec_cx(),
            final(self).spec_global() == old(self).spec_global(),
    {
        self.cls_protos.insert(class, ci);
    }
}

/// What a lookup finds after a class has been recorded: the recorded
/// information for that class, and for every other class what it found
/// before.
pub proof fn lemma_get_after_set(m: Map<u64, ClassInfo>, class: u64, ci: ClassInfo, other: u64)
    ensures
        m.insert(class, ci).contains_key(class),
        m.insert(class, ci)[class] == ci,
        other != class ==> (m.insert(class, ci).contains_key(other) == m.contains_key(other)),
        other != class && m.contains_key(other) ==> m.insert(class, ci)[other] == m[other],
{
}

} // verus!
