//! Module `b`: a self-contained unit with its own minimal error type and
//! one concrete implementer of module `a`'s shared-behavior contract.

use vstd::prelude::*;

use crate::a;

verus! {

/// Module-local error type: the sole representation of everything that can
/// go wrong inside this module's public operations. A local reason is named
/// for the failure condition itself, never prefixed with the module's own
/// name: the module and the enum already say where it comes from.
#[derive(Clone, Copy, Debug, PartialEq, Eq, Structural)]
pub enum Error {
    /// A failure intrinsic to this module.
    Reason,
}

/// This module's fallible operation. The illustrative body always fails
/// with the module's local reason, and the contract pins that down.
pub fn work() -> (r: Result<u8, Error>)
    ensures
        r == Err::<u8, Error>(Error::Reason),
{
    Err(Error::Reason)
}

/// A type whose whole relevant failure surface fits the restricted error
/// set of `a::CommonBehaviour`, so it may conform to that contract.
pub struct Concrete {}

impl a::CommonBehaviour for Concrete {
    open spec fn common_ens(r: Result<a::CommonResult, a::CommonError>) -> bool {
        r == Err::<a::CommonResult, a::CommonError>(a::CommonError::Abc)
    }

    fn common() -> (r: Result<a::CommonResult, a::CommonError>) {
        Err(a::CommonError::Abc)
    }
}

} // verus!
