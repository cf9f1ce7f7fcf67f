use rjs::jslib::jsfn::{check_arity, js_arg_count, native_outcome, native_status, JSRet, NativeOutcome, ParamKind};

#[test]
fn arg_count_skips_runtime_parameters() {
    assert_eq!(js_arg_count(&vec![]), 0);
    assert_eq!(js_arg_count(&vec![ParamKind::Converted]), 1);
    assert_eq!(js_arg_count(&vec![ParamKind::Context, ParamKind::Remote, ParamKind::Converted, ParamKind::Converted]), 2);
    assert_eq!(js_arg_count(&vec![
        ParamKind::This,
        ParamKind::Converted,
        ParamKind::CallArgs,
        ParamKind::Context,
        ParamKind::Converted,
        ParamKind::Converted,
    ]), 3);
}

#[test]
fn arity_check_message() {
    assert_eq!(check_arity("puts", 1, 1), Ok(()));
    assert_eq!(
        check_arity("puts", 0, 1),
        Err(Some("puts() requires exactly 1 argument".to_string()))
    );
    assert_eq!(
        check_arity("setTimeout", 3, 12),
        Err(Some("setTimeout() requires exactly 12 argument".to_string()))
    );
}

#[test]
fn native_results() {
    let ok: JSRet<u32> = Ok(5);
    let o = native_outcome(ok);
    assert_eq!(o, NativeOutcome::Return(5));
    assert!(native_status(&o));
    let thrown: JSRet<u32> = Err(Some("bad".to_string()));
    let o = native_outcome(thrown);
    assert_eq!(o, NativeOutcome::Throw("bad".to_string()));
    assert!(!native_status(&o));
    let failed: JSRet<u32> = Err(None);
    let o = native_outcome(failed);
    assert_eq!(o, NativeOutcome::Fail);
    assert!(!native_status(&o));
}
