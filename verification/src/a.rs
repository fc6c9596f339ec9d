//! Module `a`: depends on module `b`. Its error type can represent either
//! a reason local to `a` or a wrapped error originating in `b`, and it
//! defines the shared-behavior contract with its fixed, narrow error set.

use vstd::prelude::*;

use crate::b;

verus! {

/// Module-local error type. Variants are of two kinds: local reasons,
/// named for the failure condition and never prefixed with the module's
/// own name; and wrapped-dependency variants, exactly one per dependency
/// whose errors this module ever surfaces verbatim, named identically to
/// that dependency and holding its full error type as the sole payload.
#[derive(Clone, Copy, Debug, PartialEq, Eq, Structural)]
pub enum Error {
    /// A failure intrinsic to this module.
    Reason,
    /// A failure that originated in module `b`, preserved whole.
    B(b::Error),
}

/// The shared-behavior contract: one fallible operation whose result and
/// error types are fixed here, alongside the contract, not chosen by each
/// implementer. A type may conform only if its entire relevant failure
/// surface fits `CommonError`; needing more means the type does not belong
/// to this contract, needing less is fine.
pub trait CommonBehaviour {
    /// What this implementer's `common` promises of its result. Every
    /// implementer states its own behavior here, but the error values it
    /// can describe are drawn from `CommonError` alone.
    spec fn common_ens(r: Result<CommonResult, CommonError>) -> bool;

    /// The one shared fallible operation.
    fn common() -> (r: Result<CommonResult, CommonError>)
        ensures
            Self::common_ens(r),
    ;
}

/// The success value of the shared-behavior contract.
#[derive(Clone, Copy, Debug, PartialEq, Eq, Structural)]
pub struct CommonResult {}

/// The restricted error set of the shared-behavior contract: a small
/// closed set of reasons judged appropriate for every implementer, owned
/// together with the contract.
#[derive(Clone, Copy, Debug, PartialEq, Eq, Structural)]
pub enum CommonError {
    Abc,
}

/// What a call site's translation of a dependency result must produce:
/// success passes through; failure is either preserved by wrapping or
/// collapsed to this module's local reason.
pub open spec fn translated(res: Result<u8, b::Error>, preserve: bool) -> Result<u8, Error> {
    match res {
        Ok(v) => Ok(v),
        Err(e) => if preserve {
            Err(Error::B(e))
        } else {
            Err(Error::Reason)
        },
    }
}

/// The dependency error a value of `Error` preserves, if it holds one.
pub open spec fn wrapped_b(err: Error) -> Option<b::Error> {
    match err {
        Error::B(e) => Some(e),
        Error::Reason => None,
    }
}

/// Resolve a dependency result at a call site. `preserve` is the policy
/// decided at that point: reveal who originated the error, or discard the
/// detail in favor of a generic local reason.
pub fn translate(res: Result<u8, b::Error>, preserve: bool) -> (r: Result<u8, Error>)
    ensures
        r == translated(res, preserve),
{
    match res {
        Ok(v) => Ok(v),
        Err(e) => {
            if preserve {
                Err(Error::B(e))
            } else {
                Err(Error::Reason)
            }
        },
    }
}

/// Call into module `b` and resolve its result under the call site's
/// policy. Since `b::work` always fails with its local reason, the outcome
/// is fully determined by `preserve`.
pub fn wrapping(preserve: bool) -> (r: Result<u8, Error>)
    ensures
        r == translated(Err(b::Error::Reason), preserve),
        preserve ==> r == Err::<u8, Error>(Error::B(b::Error::Reason)),
        !preserve ==> r == Err::<u8, Error>(Error::Reason),
{
    translate(b::work(), preserve)
}

impl Error {
    /// Recover the module-`b` error this value preserves, if it is the
    /// wrapping variant; a local reason carries none.
    pub fn into_b(self) -> (r: Option<b::Error>)
        ensures
            r == wrapped_b(self),
    {
        match self {
            Error::B(e) => Some(e),
            Error::Reason => None,
        }
    }
}

/// The preserve path is lossless: this module's error type has a variant
/// that holds module `b`'s full error type, and wrapping a dependency
/// error then matching it back out returns the original.
pub proof fn lemma_preserve_round_trip(e: b::Error)
    ensures
        wrapped_b(Error::B(e)) == Some(e),
        translated(Err(e), true) == Err::<u8, Error>(Error::B(e)),
{
}

/// The collapse path is lossy: the collapsed value is the same whatever
/// the dependency error was, and it preserves no dependency error, so
/// nothing of the original can be recovered from it.
pub proof fn lemma_collapse_lossy(e1: b::Error, e2: b::Error)
    ensures
        translated(Err(e1), false) == translated(Err(e2), false),
        translated(Err(e1), false) == Err::<u8, Error>(Error::Reason),
        wrapped_b(Error::Reason) is None,
{
}

/// The restricted error set is closed: every value of `CommonError` is one
/// of its fixed reasons, so any error produced through the shared-behavior
/// contract lies in that set and no other shape is reachable.
pub proof fn lemma_common_error_closed(e: CommonError)
    ensures
        e == CommonError::Abc,
{
}

} // verus!
