use modular_errors::a;
use modular_errors::a::CommonBehaviour;
use modular_errors::b;

#[test]
fn work_always_fails_with_local_reason() {
    assert_eq!(b::work(), Err(b::Error::Reason));
}

#[test]
fn preserve_branch_wraps_dependency_error() {
    assert_eq!(a::wrapping(true), Err(a::Error::B(b::Error::Reason)));
}

#[test]
fn collapse_branch_returns_local_reason() {
    let r = a::wrapping(false);
    assert_eq!(r, Err(a::Error::Reason));
    match r {
        Err(e) => assert_eq!(e.into_b(), None),
        Ok(_) => panic!("collapse branch must fail"),
    }
}

#[test]
fn translate_passes_success_through() {
    assert_eq!(a::translate(Ok(7), true), Ok(7));
    assert_eq!(a::translate(Ok(7), false), Ok(7));
}

#[test]
fn translate_preserves_or_collapses_failure() {
    assert_eq!(a::translate(Err(b::Error::Reason), true), Err(a::Error::B(b::Error::Reason)));
    assert_eq!(a::translate(Err(b::Error::Reason), false), Err(a::Error::Reason));
}

#[test]
fn wrap_then_unwrap_returns_original() {
    let original = b::Error::Reason;
    let wrapped = a::Error::B(original);
    assert_eq!(wrapped.into_b(), Some(original));
}

#[test]
fn local_reason_preserves_no_dependency_error() {
    assert_eq!(a::Error::Reason.into_b(), None);
}

#[test]
fn concrete_common_fails_with_restricted_error() {
    let r = b::Concrete::common();
    assert!(matches!(r, Err(a::CommonError::Abc)));
}
