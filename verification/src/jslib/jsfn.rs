//! The calling convention of native functions exposed to scripts: how many
//! script arguments a declaration takes, the arity check made on each call,
//! and what a call's Rust result becomes for the engine.

use crate::text::{decimal, push_decimal};
use vstd::prelude::*;

verus! {

/// The result of a native function: a value, or an error with the message
/// to report to the script (`None` when an exception is already pending).
pub type JSRet<T> = Result<T, Option<String>>;

/// A parameter of a native function declaration.  Only `Converted`
/// parameters are taken from the script's arguments; the others are
/// supplied by the runtime.
#[derive(Clone, Copy, PartialEq, Eq, Structural, Debug)]
pub enum ParamKind {
    /// The `this` value.
    This,
    /// The runtime context.
    Context,
    /// The handle to the event loop.
    Remote,
    /// The raw call arguments.
    CallArgs,
    /// A script argument converted to a Rust value.
    Converted,
}

/// The number of script arguments that parameters `params` take.
pub open spec fn script_arity(params: Seq<ParamKind>) -> nat
    decreases params.len(),
{
    if params.len() == 0 {
        0
    } else {
        script_arity(params.drop_last()) + if params.last() == ParamKind::Converted {
            1nat
        } else {
            0nat
        }
    }
}

/// How many script arguments a native function with these parameters
/// expects.
pub fn js_arg_count(params: &Vec<ParamKind>) -> (n: usize)
    ensures
        n == script_arity(params@),
{
    let mut n: usize = 0;
    let mut i: usize = 0;
    while i < params.len()
        invariant
            i <= params.len(),
            n == script_arity(params@.take(i as int)),
            n <= i,
        decreases params.len() - i,
    {
        assert(params@.take(i as int + 1).drop_last() =~= params@.take(i as int));
        if params[i] == ParamKind::Converted {
            n = n + 1;
        }
        i = i + 1;
    }
    assert(params@.take(params.len() as int) =~= params@);
    n
}

/// The message given when `name` is called with the wrong number of
/// arguments.
pub open spec fn arity_message(name: Seq<char>, expected: nat) -> Seq<char> {
    name + "() requires exactly "@ + decimal(expected) + " argument"@
}

/// The check made before a native function runs: exactly `expected` script
/// arguments, or an error naming the function and the count it needs.
pub fn check_arity(name: &str, argc: u32, expected: u32) -> (r: JSRet<()>)
    ensures
        argc == expected ==> r is Ok,
        argc != expected ==> (r matches Err(Some(msg)) && msg@ == arity_message(name@, expected as nat)),
{
    if argc != expected {
        let mut msg = String::from_str(name);
        msg.append("() requires exactly ");
        push_decimal(&mut msg, expected as u64);
        msg.append(" argument");
        Err(Some(msg))
    } else {
        Ok(())
    }
}

/// What the engine gets from a native call.
#[derive(Clone, Debug, PartialEq)]
pub enum NativeOutcome<T> {
    /// Succeed with this return value.
    Return(T),
    /// Fail after reporting this message as an error.
    Throw(String),
    /// Fail, leaving the pending exception in place.
    Fail,
}

/// Whether the engine is told that the call succeeded.
pub open spec fn outcome_succeeds<T>(o: NativeOutcome<T>) -> bool {
    o is Return
}

/// A value becomes the call's return value; an error with a message is
/// reported, one without is left to the exception already pending.
pub fn native_outcome<T>(r: JSRet<T>) -> (o: NativeOutcome<T>)
    ensures
        match r {
            Ok(v) => o == NativeOutcome::Return(v),
            Err(Some(s)) => o == NativeOutcome::<T>::Throw(s),
            Err(None) => o == NativeOutcome::<T>::Fail,
        },
{
    match r {
        Ok(v) => NativeOutcome::Return(v),
        Err(Some(s)) => NativeOutcome::Throw(s),
        Err(None) => NativeOutcome::Fail,
    }
}

/// The status returned to the engine: `true` exactly for a return value.
pub fn native_status<T>(o: &NativeOutcome<T>) -> (ok: bool)
    ensures
        ok == outcome_succeeds(*o),
{
    match o {
        NativeOutcome::Return(_) => true,
        _ => false,
    }
}

/// Each converted parameter takes one script argument and no other kind
/// of parameter takes any, so a function's arity is the number of its
/// converted parameters.
pub proof fn lemma_arity_counts_converted(params: Seq<ParamKind>, k: ParamKind)
    ensures
        script_arity(Seq::<ParamKind>::empty()) == 0,
        k == ParamKind::Converted ==> script_arity(params.push(k)) == script_arity(params) + 1,
        k != ParamKind::Converted ==> script_arity(params.push(k)) == script_arity(params),
        script_arity(params) <= params.len(),
{
    assert(params.push(k).drop_last() =~= params);
    lemma_arity_bounded(params);
}

/// No function takes more script arguments than it has parameters.
proof fn lemma_arity_bounded(params: Seq<ParamKind>)
    ensures
        script_arity(params) <= params.len(),
    decreases params.len(),
{
    if params.len() > 0 {
        lemma_arity_bounded(params.drop_last());
    }
}

/// A function whose parameters are all converted takes as many script
/// arguments as it has parameters.
pub proof fn lemma_all_converted(params: Seq<ParamKind>)
    requires
        forall|i: int| 0 <= i < params.len() ==> params[i] == ParamKind::Converted,
    ensures
        script_arity(params) == params.len(),
    decreases params.len(),
{
    if params.len() > 0 {
        lemma_all_converted(params.drop_last());
    }
}

} // verus!
