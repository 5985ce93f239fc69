//! The kernel's standard result convention.

use vstd::prelude::*;
use crate::sys::args::AsRawV;

verus! {

/// The smallest raw word that stands for an error: `-4095` as an unsigned
/// 64-bit value. Every word from here up to `u64::MAX` is an error, every
/// word below it a successful result.
pub const ERROR_WORD_MIN: u64 = 0xffff_ffff_ffff_f001;

/// An error code directly from the kernel.
#[derive(Clone, Copy, PartialEq, Eq, Debug, Structural)]
pub struct Error(pub i32);

impl Error {
    pub fn new(raw: i32) -> (e: Self)
        ensures
            e == Error(raw),
    {
        Error(raw)
    }
}

/// Whether a raw result word lies in the error range `-4095 ..= -1`.
pub open spec fn is_error_word(raw: u64) -> bool {
    raw >= ERROR_WORD_MIN
}

/// The error number that an error word carries: the word negated, which
/// lies in `1 ..= 4095`.
pub open spec fn error_number(raw: u64) -> int {
    0x1_0000_0000_0000_0000 - raw
}

/// Says whether a raw result word lies in the error range.
pub fn is_error(raw: u64) -> (b: bool)
    ensures
        b == is_error_word(raw),
{
    raw >= ERROR_WORD_MIN
}

/// What a raw result word means under the standard convention.
pub open spec fn spec_unpack_standard_result(raw: u64) -> Result<u64, i32> {
    if is_error_word(raw) {
        Err(error_number(raw) as i32)
    } else {
        Ok(raw)
    }
}

/// Splits a raw result word into the successful value, returned verbatim,
/// or the error number extracted from it.
pub fn unpack_standard_result(raw: u64) -> (r: Result<u64, i32>)
    ensures
        r == spec_unpack_standard_result(raw),
        r is Err <==> is_error_word(raw),
        r is Err ==> 1 <= r->Err_0 <= 4095 && r->Err_0 == error_number(raw),
{
    if raw >= ERROR_WORD_MIN {
        let distance: u64 = u64::MAX - raw;
        let err: i32 = (distance + 1) as i32;
        Err(err)
    } else {
        Ok(raw)
    }
}

/// What a raw result word means as a value of type `T`.
pub open spec fn spec_prepare_standard_result<T: AsRawV>(raw: u64) -> Result<T, Error> {
    match spec_unpack_standard_result(raw) {
        Ok(v) => Ok(T::spec_from_raw_result(v)),
        Err(e) => Err(Error(e)),
    }
}

/// Turns a raw result word into a typed result: the converted value on
/// success, the kernel's error code otherwise.
pub fn prepare_standard_result<T: AsRawV>(raw: u64) -> (r: Result<T, Error>)
    ensures
        r == spec_prepare_standard_result::<T>(raw),
        r is Err <==> is_error_word(raw),
{
    match unpack_standard_result(raw) {
        Ok(v) => Ok(T::from_raw_result(v)),
        Err(e) => Err(Error::new(e)),
    }
}

/// Turns a typed argument into the raw word handed to the kernel.
pub fn prepare_arg<T: AsRawV>(arg: T) -> (w: u64)
    ensures
        w == arg.spec_to_raw_arg(),
{
    arg.to_raw_arg()
}

/// Every raw word is either an error word carrying a number in
/// `1 ..= 4095`, or a success returned unchanged; never both.
pub proof fn lemma_result_partition(raw: u64)
    ensures
        is_error_word(raw) <==> spec_unpack_standard_result(raw) is Err,
        !is_error_word(raw) ==> spec_unpack_standard_result(raw) == Ok::<u64, i32>(raw),
        is_error_word(raw) ==> 1 <= error_number(raw) <= 4095,
{
}

/// The error word for a given error number: the number negated as an
/// unsigned 64-bit value.
pub open spec fn error_word(errno: int) -> u64
    recommends
        1 <= errno <= 4095,
{
    (0x1_0000_0000_0000_0000 - errno) as u64
}

/// An error number survives the trip through its error word.
pub proof fn lemma_error_word_round_trip(errno: i32)
    requires
        1 <= errno <= 4095,
    ensures
        is_error_word(error_word(errno as int)),
        spec_unpack_standard_result(error_word(errno as int)) == Err::<u64, i32>(errno),
{
}

/// Operation not permitted.
pub const EPERM: i32 = 1;

/// No such file or directory.
pub const ENOENT: i32 = 2;

/// No such process.
pub const ESRCH: i32 = 3;

/// Interrupted system call.
pub const EINTR: i32 = 4;

/// I/O error.
pub const EIO: i32 = 5;

/// No such device or address.
pub const ENXIO: i32 = 6;

/// Argument list too long.
pub const E2BIG: i32 = 7;

/// Exec format error.
pub const ENOEXEC: i32 = 8;

/// Bad file number.
pub const EBADF: i32 = 9;

/// No child processes.
pub const ECHILD: i32 = 10;

/// Try again.
pub const EAGAIN: i32 = 11;

/// Out of memory.
pub const ENOMEM: i32 = 12;

/// Permission denied.
pub const EACCES: i32 = 13;

/// Bad address.
pub const EFAULT: i32 = 14;

/// Block device required.
pub const ENOTBLK: i32 = 15;

/// Device or resource busy.
pub const EBUSY: i32 = 16;

/// File exists.
pub const EEXIST: i32 = 17;

/// Cross-device link.
pub const EXDEV: i32 = 18;

/// No such device.
pub const ENODEV: i32 = 19;

/// Not a directory.
pub const ENOTDIR: i32 = 20;

/// Is a directory.
pub const EISDIR: i32 = 21;

/// Invalid argument.
pub const EINVAL: i32 = 22;

/// File table overflow.
pub const ENFILE: i32 = 23;

/// Too many open files.
pub const EMFILE: i32 = 24;

/// Not a typewriter.
pub const ENOTTY: i32 = 25;

/// Text file busy.
pub const ETXTBSY: i32 = 26;

/// File too large.
pub const EFBIG: i32 = 27;

/// No space left on device.
pub const ENOSPC: i32 = 28;

/// Illegal seek.
pub const ESPIPE: i32 = 29;

/// Read-only file system.
pub const EROFS: i32 = 30;

/// Too many links.
pub const EMLINK: i32 = 31;

/// Broken pipe.
pub const EPIPE: i32 = 32;

/// Math argument out of domain of func.
pub const EDOM: i32 = 33;

/// Math result not representable.
pub const ERANGE: i32 = 34;

} // verus!
