use rjs::jslib::context::{ClassInfo, RJSContext};
use rjs::jslib::jsclass::{
    class_info, constructor_nargs, init_class, jsclass_has_reserved_slots, jsnew_prototype,
    parent_prototype, ParentClass, JSCLASS_HAS_PRIVATE,
};

#[test]
fn classinfo_set_then_get() {
    let mut rcx = RJSContext::new(0x1000, 0x2000);
    assert_eq!(rcx.cx(), 0x1000);
    assert_eq!(rcx.global(), 0x2000);
    assert_eq!(rcx.get_classinfo_for(5), None);
    let ci = ClassInfo { constr: 10, prototype: 20 };
    rcx.set_classinfo_for(5, ci);
    assert_eq!(rcx.get_classinfo_for(5), Some(ci));
    assert_eq!(rcx.get_classinfo_for(6), None);
    let ci2 = ClassInfo { constr: 11, prototype: 21 };
    rcx.set_classinfo_for(5, ci2);
    assert_eq!(rcx.get_classinfo_for(5), Some(ci2));
}

#[test]
fn reserved_slot_flags() {
    assert_eq!(jsclass_has_reserved_slots(0), 0);
    assert_eq!(jsclass_has_reserved_slots(1), 256);
    assert_eq!(jsclass_has_reserved_slots(3), 768);
    assert_eq!(jsclass_has_reserved_slots(255), 255 * 256);
    assert_eq!(jsclass_has_reserved_slots(256), 0);
    assert_eq!(jsclass_has_reserved_slots(257), 256);
    assert_eq!(JSCLASS_HAS_PRIVATE | jsclass_has_reserved_slots(2), 513);
}

#[test]
fn class_definition_bookkeeping() {
    let mut rcx = RJSContext::new(1, 2);
    assert_eq!(
        class_info(&rcx, ParentClass::Root),
        Some(ClassInfo { constr: 0, prototype: 0 })
    );
    assert_eq!(parent_prototype(&rcx, ParentClass::Root), 0);
    // an undefined parent is found undefined, so no class is defined under it
    assert_eq!(class_info(&rcx, ParentClass::Class(9)), None);
    assert_eq!(rcx.get_classinfo_for(9), None);
    let ci = init_class(&mut rcx, 9, ParentClass::Root, 0xa0, 0xb0);
    assert_eq!(ci, ClassInfo { constr: 0xa0, prototype: 0xb0 });
    assert_eq!(class_info(&rcx, ParentClass::Class(9)), Some(ci));
    assert_eq!(parent_prototype(&rcx, ParentClass::Class(9)), 0xb0);
    assert_eq!(jsnew_prototype(&rcx, 9), 0xb0);
    let child = init_class(&mut rcx, 12, ParentClass::Class(9), 0xc0, 0xd0);
    assert_eq!(child, ClassInfo { constr: 0xc0, prototype: 0xd0 });
    assert_eq!(parent_prototype(&rcx, ParentClass::Class(12)), 0xd0);
    assert_eq!(jsnew_prototype(&rcx, 12), 0xd0);
    assert_eq!(rcx.get_classinfo_for(3), None);
}

#[test]
fn constructor_argument_counts() {
    assert_eq!(constructor_nargs(Some(3)), 3);
    assert_eq!(constructor_nargs(None), 0);
}
