//! Results of kernel calls.

use vstd::prelude::*;
use vstd::std_specs::convert::FromSpecImpl;

verus! {

/// An error code directly from the kernel, propagated verbatim.
#[derive(Clone, Copy, PartialEq, Eq, Debug, Structural)]
pub struct Error(pub i32);

impl Error {
    pub fn new(raw: i32) -> (e: Self)
        ensures
            e == Error(raw),
    {
        Error(raw)
    }

    /// The kernel's error number.
    pub fn raw(&self) -> (n: i32)
        ensures
            n == self.0,
    {
        self.0
    }
}

impl From<i32> for Error {
    fn from(value: i32) -> (e: Self) {
        Error(value)
    }
}

impl FromSpecImpl<i32> for Error {
    open spec fn obeys_from_spec() -> bool {
        true
    }

    open spec fn from_spec(v: i32) -> Self {
        Error(v)
    }
}

impl From<crate::sys::result::Error> for Error {
    fn from(value: crate::sys::result::Error) -> (e: Self) {
        Error(value.0)
    }
}

impl FromSpecImpl<crate::sys::result::Error> for Error {
    open spec fn obeys_from_spec() -> bool {
        true
    }

    open spec fn from_spec(v: crate::sys::result::Error) -> Self {
        Error(v.0)
    }
}

/// What a raw result word means to this layer: the successful word
/// unchanged, or the kernel's error code.
pub open spec fn spec_check(raw: u64) -> Result<u64, Error> {
    match crate::sys::result::spec_unpack_standard_result(raw) {
        Ok(v) => Ok(v),
        Err(e) => Err(Error(e)),
    }
}

/// Splits a raw result word into the successful word or the kernel's error
/// code.
pub fn check(raw: u64) -> (r: Result<u64, Error>)
    ensures
        r == spec_check(raw),
        r is Err <==> crate::sys::result::is_error_word(raw),
{
    match crate::sys::result::unpack_standard_result(raw) {
        Ok(v) => Ok(v),
        Err(e) => Err(Error(e)),
    }
}

} // verus!
