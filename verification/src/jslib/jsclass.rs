//! Class flags and the bookkeeping of class definition: finding the parent
//! prototype, recording what a definition produced, and finding the
//! prototype for new instances.

use crate::jslib::context::{ClassInfo, RJSContext};
use vstd::prelude::*;

verus! {

/// Class flag: instances carry a private pointer.
pub const JSCLASS_HAS_PRIVATE: u32 = 1;

/// Position of the reserved-slot count within the class flags
/// (SpiderMonkey's `JSCLASS_RESERVED_SLOTS_SHIFT`).
pub const JSCLASS_RESERVED_SLOTS_SHIFT: u32 = 8;

/// Mask of the reserved-slot count, `(1 << 8) - 1` (SpiderMonkey's
/// `JSCLASS_RESERVED_SLOTS_MASK`).
pub const JSCLASS_RESERVED_SLOTS_MASK: u32 = 255;

/// The class flags that reserve `n` slots: the low eight bits of `n`,
/// shifted into the reserved-slot field.
pub fn jsclass_has_reserved_slots(n: u32) -> (r: u32)
    ensures
        r == (n % 256) * 256,
{
    let r = (n & JSCLASS_RESERVED_SLOTS_MASK) << JSCLASS_RESERVED_SLOTS_SHIFT;
    assert((n & 255u32) << 8u32 == (n % 256) * 256) by (bit_vector);
    r
}

/// The parent of a class: the root (written `()` in a class declaration),
/// which has no constructor or prototype, or another class by type key.
#[derive(Clone, Copy, PartialEq, Eq, Structural, Debug)]
pub enum ParentClass {
    Root,
    Class(u64),
}

/// What [`class_info`] finds for a parent in a context whose classes are
/// `classes`.
pub open spec fn spec_class_info(classes: Map<u64, ClassInfo>, parent: ParentClass) -> Option<ClassInfo> {
    match parent {
        ParentClass::Root => Some(ClassInfo { constr: 0, prototype: 0 }),
        ParentClass::Class(k) => if classes.contains_key(k) {
            Some(classes[k])
        } else {
            None
        },
    }
}

/// The class information of a parent: null objects for the root, the
/// recorded information for a class that has been defined, and `None` for
/// one that has not.
pub fn class_info(rcx: &RJSContext, parent: ParentClass) -> (r: Option<ClassInfo>)
    ensures
        r == spec_class_info(rcx.classes(), parent),
{
    match parent {
        ParentClass::Root => Some(ClassInfo { constr: 0, prototype: 0 }),
        ParentClass::Class(k) => rcx.get_classinfo_for(k),
    }
}

/// The prototype under which a class with the given parent is created.
/// A class can only be defined after its parent, so the parent must be
/// defined (see [`class_info`] to test that).
pub fn parent_prototype(rcx: &RJSContext, parent: ParentClass) -> (r: u64)
    requires
        spec_class_info(rcx.classes(), parent) is Some,
    ensures
        r == spec_class_info(rcx.classes(), parent)->0.prototype,
{
    match class_info(rcx, parent) {
        Some(ci) => ci.prototype,
        None => 0,
    }
}

/// The argument count a class constructor is declared with: that of its
/// constructor function, or zero when it has none.
pub fn constructor_nargs(constr_nargs: Option<u32>) -> (r: u32)
    ensures
        r == (match constr_nargs {
            Some(n) => n,
            None => 0,
        }),
{
    match constr_nargs {
        Some(n) => n,
        None => 0,
    }
}

/// Records the constructor and prototype that defining the class with key
/// `class` under `parent` produced, and returns them.  A class can only be
/// defined under a parent that is defined.
pub fn init_class(rcx: &mut RJSContext, class: u64, parent: ParentClass, constr: u64, prototype: u64) -> (r: ClassInfo)
    requires
        spec_class_info(old(rcx).classes(), parent) is Some,
    ensures
        r == (ClassInfo { constr, prototype }),
        final(rcx).classes() == old(rcx).classes().insert(class, ClassInfo { constr, prototype }),
        final(rcx).spec_cx() == old(rcx).spec_cx(),
        final(rcx).spec_global() == old(rcx).spec_global(),
{
    let ci = ClassInfo { constr, prototype };
    rcx.set_classinfo_for(class, ci);
    ci
}

/// The prototype for a new instance of the class with key `class`, which
/// must have been defined in this context.
pub fn jsnew_prototype(rcx: &RJSContext, class: u64) -> (r: u64)
    requires
        rcx.classes().contains_key(class),
    ensures
        r == rcx.classes()[class].prototype,
{
    match rcx.get_classinfo_for(class) {
        Some(ci) => ci.prototype,
        None => 0,
    }
}

/// The only parent under which a class cannot be defined is a class that
/// has not been defined itself; the root is always available.
pub proof fn lemma_define_needs_parent(classes: Map<u64, ClassInfo>, parent: ParentClass)
    ensures
        spec_class_info(classes, parent) is None <==> (parent matches ParentClass::Class(k) && !classes.contains_key(k)),
{
}

/// Once a class has been defined, new instances of it are created under the
/// prototype its definition produced, and a class defined after it sees it
/// as a defined parent.
pub proof fn lemma_defined_class_is_found(classes: Map<u64, ClassInfo>, class: u64, constr: u64, prototype: u64)
    ensures
        ({
            let after = classes.insert(class, ClassInfo { constr, prototype });
            &&& after.contains_key(class)
            &&& after[class].prototype == prototype
            &&& spec_class_info(after, ParentClass::Class(class)) == Some(ClassInfo { constr, prototype })
        }),
{
}

} // verus!
