use rjs::jslib::upcast::{cast_position, Castable};
use std::any::{Any, TypeId};

/// The key naming type `T`: its position among the types these tests give
/// views of, and a key that no value declares for every other type.
fn key<T: ?Sized + 'static>() -> u64 {
    let known = [TypeId::of::<S>(), TypeId::of::<dyn A>(), TypeId::of::<dyn B>()];
    match known.iter().position(|t| *t == TypeId::of::<T>()) {
        Some(pos) => pos as u64,
        None => u64::MAX,
    }
}

/// A castable value that also supplies, for each of its views, the
/// function that produces that view.
trait CastObject: Castable + Any {
    fn view_fns(&self) -> Vec<Box<dyn Any>>;
}

type ViewFn<T> = for<'x> fn(&'x dyn CastObject) -> Option<&'x T>;

fn try_cast<'a, T: ?Sized + 'static>(c: &'a dyn CastObject) -> Option<&'a T> {
    let pos = cast_position(&c.cast_keys(), key::<T>())?;
    let fns = c.view_fns();
    let f = fns[pos].downcast_ref::<ViewFn<T>>()?;
    f(c)
}

struct S;

impl S {
    fn s(&self) -> u32 {
        3
    }
}

trait A {
    fn a(&self) -> u32;
}
impl A for S {
    fn a(&self) -> u32 {
        1
    }
}

trait B {
    fn b(&self) -> u32;
}
impl B for S {
    fn b(&self) -> u32 {
        2
    }
}

fn as_s(c: &dyn CastObject) -> Option<&S> {
    let any: &dyn Any = c;
    any.downcast_ref::<S>()
}

fn view_s(c: &dyn CastObject) -> Option<&S> {
    as_s(c)
}

fn view_a<'x>(c: &'x dyn CastObject) -> Option<&'x (dyn A + 'static)> {
    as_s(c).map(|s| s as &(dyn A + 'static))
}

fn view_b<'x>(c: &'x dyn CastObject) -> Option<&'x (dyn B + 'static)> {
    as_s(c).map(|s| s as &(dyn B + 'static))
}

// S is castable to itself and to A and B.
impl Castable for S {
    fn cast_keys(&self) -> Vec<u64> {
        vec![key::<S>(), key::<dyn A>(), key::<dyn B>()]
    }
}

impl CastObject for S {
    fn view_fns(&self) -> Vec<Box<dyn Any>> {
        let fs: ViewFn<S> = view_s;
        let fa: ViewFn<dyn A> = view_a;
        let fb: ViewFn<dyn B> = view_b;
        vec![Box::new(fs), Box::new(fa), Box::new(fb)]
    }
}

#[test]
fn test_castable() {
    let s = S {};

    let c: &dyn CastObject = &s;

    assert_eq!(Some(1), try_cast::<dyn A>(c).map(|a: &dyn A| a.a()));
    assert_eq!(Some(2), try_cast::<dyn B>(c).map(|b: &dyn B| b.b()));
    assert_eq!(Some(3), try_cast::<S>(c).map(|s: &S| s.s()));
    assert_eq!(None, try_cast::<Option<u32>>(c));
    assert_eq!(None, try_cast::<()>(c));
}

#[test]
fn test_castable_box() {
    let c: Box<dyn CastObject> = Box::new(S);

    assert_eq!(Some(1), try_cast::<dyn A>(&*c).map(|a: &dyn A| a.a()));
    assert_eq!(Some(2), try_cast::<dyn B>(&*c).map(|b: &dyn B| b.b()));
    assert_eq!(Some(3), try_cast::<S>(&*c).map(|s: &S| s.s()));
    assert_eq!(None, try_cast::<Option<u32>>(&*c));
    assert_eq!(None, try_cast::<()>(&*c));
}

#[test]
fn cast_position_takes_first_match() {
    let keys = vec![7u64, 9, 7, 11];
    assert_eq!(cast_position(&keys, 7), Some(0));
    assert_eq!(cast_position(&keys, 9), Some(1));
    assert_eq!(cast_position(&keys, 11), Some(3));
    assert_eq!(cast_position(&keys, 5), None);
    assert_eq!(cast_position(&vec![], 5), None);
}
