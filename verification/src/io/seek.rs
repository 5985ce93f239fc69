//! Types for use with "seek" operations.

use vstd::prelude::*;
use crate::sys::layout::as_signed64;
use crate::sys::types::{SEEK_CUR, SEEK_END, SEEK_SET};

verus! {

/// The starting point and offset of a seek.
#[derive(Clone, Copy, PartialEq, Eq, Debug, Structural)]
pub enum SeekFrom {
    Start(u64),
    End(i64),
    Current(i64),
}

impl SeekFrom {
    /// The offset as the kernel takes it: a signed 64-bit number. An
    /// offset from the start beyond the signed range wraps around to the
    /// negative number with the same bits.
    pub open spec fn spec_raw_offset(self) -> i64 {
        match self {
            SeekFrom::Start(v) => as_signed64(v as int) as i64,
            SeekFrom::End(v) => v,
            SeekFrom::Current(v) => v,
        }
    }

    /// The number by which the kernel knows the starting point.
    pub open spec fn spec_raw_whence(self) -> i32 {
        match self {
            SeekFrom::Start(_) => SEEK_SET,
            SeekFrom::End(_) => SEEK_END,
            SeekFrom::Current(_) => SEEK_CUR,
        }
    }

    /// The bits of the raw offset as an unsigned number.
    pub open spec fn spec_offset_bits(self) -> u64 {
        match self {
            SeekFrom::Start(v) => v,
            SeekFrom::End(v) => crate::sys::layout::spec_bits64(v),
            SeekFrom::Current(v) => crate::sys::layout::spec_bits64(v),
        }
    }

    #[verifier::when_used_as_spec(spec_raw_offset)]
    pub fn for_raw_offset(self) -> (offset: i64)
        ensures
            offset == self.spec_raw_offset(),
    {
        match self {
            SeekFrom::Start(v) => crate::sys::layout::signed64(v),
            SeekFrom::End(v) => v,
            SeekFrom::Current(v) => v,
        }
    }

    #[verifier::when_used_as_spec(spec_raw_whence)]
    pub fn for_raw_whence(self) -> (whence: i32)
        ensures
            whence == self.spec_raw_whence(),
    {
        match self {
            SeekFrom::Start(_) => SEEK_SET,
            SeekFrom::End(_) => SEEK_END,
            SeekFrom::Current(_) => SEEK_CUR,
        }
    }

    /// The starting point as an unsigned number, as the 32-bit seek call
    /// takes it.
    pub fn for_raw_uwhence(self) -> (whence: u32)
        ensures
            whence == self.spec_raw_whence(),
    {
        match self {
            SeekFrom::Start(_) => 0,
            SeekFrom::End(_) => 2,
            SeekFrom::Current(_) => 1,
        }
    }

    /// The upper and the lower 32 bits of the raw offset, as the 32-bit
    /// seek call takes them.
    pub fn for_raw_halves(self) -> (halves: (u32, u32))
        ensures
            halves.0 == self.spec_offset_bits() / 0x1_0000_0000,
            halves.1 == self.spec_offset_bits() % 0x1_0000_0000,
            halves.0 * 0x1_0000_0000 + halves.1 == self.spec_offset_bits(),
    {
        let bits: u64 = match self {
            SeekFrom::Start(v) => v,
            SeekFrom::End(v) => crate::sys::layout::bits64(v),
            SeekFrom::Current(v) => crate::sys::layout::bits64(v),
        };
        ((bits / 0x1_0000_0000) as u32, (bits % 0x1_0000_0000) as u32)
    }
}

} // verus!
