//! Conversion between typed values and the raw words of a system call.

use vstd::prelude::*;

verus! {

/// Implemented by types that can travel through a raw system call word.
pub trait AsRawV: Sized {
    /// The value of this type that a raw word stands for.
    spec fn spec_from_raw_result(raw: u64) -> Self;

    /// The raw word that stands for this value.
    spec fn spec_to_raw_arg(self) -> u64;

    /// Whether this value stands for the absence of an argument.
    spec fn spec_raw_is_void(self) -> bool;

    fn from_raw_result(raw: u64) -> (r: Self)
        ensures
            r == Self::spec_from_raw_result(raw),
    ;

    fn to_raw_arg(self) -> (w: u64)
        ensures
            w == self.spec_to_raw_arg(),
    ;

    /// Determines whether this value stands for the absence of a value
    /// where that makes sense, such as the last argument of `ioctl` when
    /// the request does not use it.
    fn raw_is_void(self) -> (b: bool)
        ensures
            b == self.spec_raw_is_void(),
    ;
}

impl AsRawV for i8 {
    /// The low 8 bits of the word, read as a signed number.
    open spec fn spec_from_raw_result(raw: u64) -> Self {
        if raw % 0x100 >= 0x80 {
            (raw % 0x100 - 0x100) as i8
        } else {
            (raw % 0x100) as i8
        }
    }

    /// The number itself where it is not negative, and else the word with
    /// the same bits, the sign carried through all 64.
    open spec fn spec_to_raw_arg(self) -> u64 {
        if self >= 0 {
            self as u64
        } else {
            (self + 0x1_0000_0000_0000_0000) as u64
        }
    }

    open spec fn spec_raw_is_void(self) -> bool {
        false
    }

    fn from_raw_result(raw: u64) -> (r: Self) {
        let low: u64 = raw % 0x100;
        if low >= 0x80 {
            ((low as i64) - 0x100) as i8
        } else {
            low as i8
        }
    }

    fn to_raw_arg(self) -> (w: u64) {
        crate::sys::layout::bits64(self as i64)
    }

    fn raw_is_void(self) -> (b: bool) {
        false
    }
}

impl AsRawV for u8 {
    /// The low 8 bits of the word.
    open spec fn spec_from_raw_result(raw: u64) -> Self {
        (raw % 0x100) as u8
    }

    open spec fn spec_to_raw_arg(self) -> u64 {
        self as u64
    }

    open spec fn spec_raw_is_void(self) -> bool {
        false
    }

    fn from_raw_result(raw: u64) -> (r: Self) {
        (raw % 0x100) as u8
    }

    fn to_raw_arg(self) -> (w: u64) {
        self as u64
    }

    fn raw_is_void(self) -> (b: bool) {
        false
    }
}

impl AsRawV for i16 {
    /// The low 16 bits of the word, read as a signed number.
    open spec fn spec_from_raw_result(raw: u64) -> Self {
        if raw % 0x10000 >= 0x8000 {
            (raw % 0x10000 - 0x10000) as i16
        } else {
            (raw % 0x10000) as i16
        }
    }

    /// The number itself where it is not negative, and else the word with
    /// the same bits, the sign carried through all 64.
    open spec fn spec_to_raw_arg(self) -> u64 {
        if self >= 0 {
            self as u64
        } else {
            (self + 0x1_0000_0000_0000_0000) as u64
        }
    }

    open spec fn spec_raw_is_void(self) -> bool {
        false
    }

    fn from_raw_result(raw: u64) -> (r: Self) {
        let low: u64 = raw % 0x10000;
        if low >= 0x8000 {
            ((low as i64) - 0x10000) as i16
        } else {
            low as i16
        }
    }

    fn to_raw_arg(self) -> (w: u64) {
        crate::sys::layout::bits64(self as i64)
    }

    fn raw_is_void(self) -> (b: bool) {
        false
    }
}

impl AsRawV for u16 {
    /// The low 16 bits of the word.
    open spec fn spec_from_raw_result(raw: u64) -> Self {
        (raw % 0x10000) as u16
    }

    open spec fn spec_to_raw_arg(self) -> u64 {
        self as u64
    }

    open spec fn spec_raw_is_void(self) -> bool {
        false
    }

    fn from_raw_result(raw: u64) -> (r: Self) {
        (raw % 0x10000) as u16
    }

    fn to_raw_arg(self) -> (w: u64) {
        self as u64
    }

    fn raw_is_void(self) -> (b: bool) {
        false
    }
}

impl AsRawV for i32 {
    /// The low 32 bits of the word, read as a signed number.
    open spec fn spec_from_raw_result(raw: u64) -> Self {
        if raw % 0x100000000 >= 0x80000000 {
            (raw % 0x100000000 - 0x100000000) as i32
        } else {
            (raw % 0x100000000) as i32
        }
    }

    /// The number itself where it is not negative, and else the word with
    /// the same bits, the sign carried through all 64.
    open spec fn spec_to_raw_arg(self) -> u64 {
        if self >= 0 {
            self as u64
        } else {
            (self + 0x1_0000_0000_0000_0000) as u64
        }
    }

    open spec fn spec_raw_is_void(self) -> bool {
        false
    }

    fn from_raw_result(raw: u64) -> (r: Self) {
        let low: u64 = raw % 0x100000000;
        if low >= 0x80000000 {
            ((low as i64) - 0x100000000) as i32
        } else {
            low as i32
        }
    }

    fn to_raw_arg(self) -> (w: u64) {
        crate::sys::layout::bits64(self as i64)
    }

    fn raw_is_void(self) -> (b: bool) {
        false
    }
}

impl AsRawV for u32 {
    /// The low 32 bits of the word.
    open spec fn spec_from_raw_result(raw: u64) -> Self {
        (raw % 0x100000000) as u32
    }

    open spec fn spec_to_raw_arg(self) -> u64 {
        self as u64
    }

    open spec fn spec_raw_is_void(self) -> bool {
        false
    }

    fn from_raw_result(raw: u64) -> (r: Self) {
        (raw % 0x100000000) as u32
    }

    fn to_raw_arg(self) -> (w: u64) {
        self as u64
    }

    fn raw_is_void(self) -> (b: bool) {
        false
    }
}

impl AsRawV for i64 {
    /// The word read as a signed number.
    open spec fn spec_from_raw_result(raw: u64) -> Self {
        crate::sys::layout::as_signed64(raw as int) as i64
    }

    open spec fn spec_to_raw_arg(self) -> u64 {
        crate::sys::layout::spec_bits64(self)
    }

    open spec fn spec_raw_is_void(self) -> bool {
        false
    }

    fn from_raw_result(raw: u64) -> (r: Self) {
        crate::sys::layout::signed64(raw)
    }

    fn to_raw_arg(self) -> (w: u64) {
        crate::sys::layout::bits64(self)
    }

    fn raw_is_void(self) -> (b: bool) {
        false
    }
}

impl AsRawV for u64 {
    open spec fn spec_from_raw_result(raw: u64) -> Self {
        raw
    }

    open spec fn spec_to_raw_arg(self) -> u64 {
        self
    }

    open spec fn spec_raw_is_void(self) -> bool {
        false
    }

    fn from_raw_result(raw: u64) -> (r: Self) {
        raw
    }

    fn to_raw_arg(self) -> (w: u64) {
        self
    }

    fn raw_is_void(self) -> (b: bool) {
        false
    }
}

impl AsRawV for isize {
    /// The word cut to the width of the type and read as a signed number.
    open spec fn spec_from_raw_result(raw: u64) -> Self {
        raw as isize
    }

    /// The number itself where it is not negative, and else the word with
    /// the same bits, the sign carried through all 64.
    open spec fn spec_to_raw_arg(self) -> u64 {
        if self >= 0 {
            self as u64
        } else {
            (self + 0x1_0000_0000_0000_0000) as u64
        }
    }

    open spec fn spec_raw_is_void(self) -> bool {
        false
    }

    fn from_raw_result(raw: u64) -> (r: Self) {
        #[verifier::truncate]
        (raw as isize)
    }

    fn to_raw_arg(self) -> (w: u64) {
        crate::sys::layout::bits64(self as i64)
    }

    fn raw_is_void(self) -> (b: bool) {
        false
    }
}

impl AsRawV for usize {
    /// The word cut to the width of the type.
    open spec fn spec_from_raw_result(raw: u64) -> Self {
        raw as usize
    }

    open spec fn spec_to_raw_arg(self) -> u64 {
        self as u64
    }

    open spec fn spec_raw_is_void(self) -> bool {
        false
    }

    fn from_raw_result(raw: u64) -> (r: Self) {
        #[verifier::truncate]
        (raw as usize)
    }

    fn to_raw_arg(self) -> (w: u64) {
        self as u64
    }

    fn raw_is_void(self) -> (b: bool) {
        false
    }
}

impl AsRawV for () {
    open spec fn spec_from_raw_result(raw: u64) -> Self {
        ()
    }

    open spec fn spec_to_raw_arg(self) -> u64 {
        0
    }

    open spec fn spec_raw_is_void(self) -> bool {
        true
    }

    fn from_raw_result(raw: u64) -> (r: Self) {
        ()
    }

    fn to_raw_arg(self) -> (w: u64) {
        0
    }

    fn raw_is_void(self) -> (b: bool) {
        true
    }
}

} // verus!
