//! Fixed little-endian layouts, as the kernel sees structures in memory.
//!
//! Reading is total: a byte beyond the end of the buffer reads as zero, the
//! value that freshly zeroed scratch memory holds where the kernel wrote
//! nothing.

use vstd::prelude::*;

verus! {

/// The byte at index `i`, or zero beyond the end.
pub open spec fn byte_at(b: Seq<u8>, i: int) -> int {
    if 0 <= i < b.len() {
        b[i] as int
    } else {
        0
    }
}

/// The 16-bit little-endian number at offset `off`.
pub open spec fn le_u16(b: Seq<u8>, off: int) -> int {
    byte_at(b, off) + 0x100 * byte_at(b, off + 1)
}

/// The 32-bit little-endian number at offset `off`.
pub open spec fn le_u32(b: Seq<u8>, off: int) -> int {
    le_u16(b, off) + 0x1_0000 * le_u16(b, off + 2)
}

/// The 64-bit little-endian number at offset `off`.
pub open spec fn le_u64(b: Seq<u8>, off: int) -> int {
    le_u32(b, off) + 0x1_0000_0000 * le_u32(b, off + 4)
}

/// The two bytes of `x`, least significant first.
pub open spec fn u16_le(x: u16) -> Seq<u8> {
    seq![(x % 0x100) as u8, (x / 0x100) as u8]
}

/// The four bytes of `x`, least significant first.
pub open spec fn u32_le(x: u32) -> Seq<u8> {
    u16_le((x % 0x1_0000) as u16) + u16_le((x / 0x1_0000) as u16)
}

/// The eight bytes of `x`, least significant first.
pub open spec fn u64_le(x: u64) -> Seq<u8> {
    u32_le((x % 0x1_0000_0000) as u32) + u32_le((x / 0x1_0000_0000) as u32)
}

/// The signed value of a 64-bit two's complement number.
pub open spec fn as_signed64(x: int) -> int {
    if x >= 0x8000_0000_0000_0000 {
        x - 0x1_0000_0000_0000_0000
    } else {
        x
    }
}

/// The bits of a signed 64-bit number in two's complement, as an unsigned
/// number.
pub open spec fn spec_bits64(x: i64) -> u64 {
    if x >= 0 {
        x as u64
    } else {
        (x + 0x1_0000_0000_0000_0000) as u64
    }
}

/// The signed number that has the bits of `x` in two's complement.
pub fn signed64(x: u64) -> (r: i64)
    ensures
        r == as_signed64(x as int),
        spec_bits64(r) == x,
{
    if x >= 0x8000_0000_0000_0000 {
        let low: i64 = (x - 0x8000_0000_0000_0000) as i64;
        low - 0x4000_0000_0000_0000 - 0x4000_0000_0000_0000
    } else {
        x as i64
    }
}

/// The bits of `x` in two's complement, as an unsigned number.
pub fn bits64(x: i64) -> (r: u64)
    ensures
        r == spec_bits64(x),
        as_signed64(r as int) == x,
{
    if x >= 0 {
        x as u64
    } else {
        let up: i64 = (x + 0x4000_0000_0000_0000) + 0x4000_0000_0000_0000;
        (up as u64) + 0x8000_0000_0000_0000
    }
}

/// The bits of a signed 32-bit number in two's complement, as an unsigned
/// number.
pub open spec fn spec_bits32(x: i32) -> u32 {
    if x >= 0 {
        x as u32
    } else {
        (x + 0x1_0000_0000) as u32
    }
}

/// The bits of a signed 16-bit number in two's complement, as an unsigned
/// number.
pub open spec fn spec_bits16(x: i16) -> u16 {
    if x >= 0 {
        x as u16
    } else {
        (x + 0x1_0000) as u16
    }
}

/// The signed number that has the bits of `x` in two's complement.
pub fn signed32(x: u32) -> (r: i32)
    ensures
        r == as_signed32(x as int),
        spec_bits32(r) == x,
{
    if x >= 0x8000_0000 {
        ((x as i64) - 0x1_0000_0000) as i32
    } else {
        x as i32
    }
}

/// The bits of `x` in two's complement, as an unsigned number.
pub fn bits32(x: i32) -> (r: u32)
    ensures
        r == spec_bits32(x),
        as_signed32(r as int) == x,
{
    if x >= 0 {
        x as u32
    } else {
        ((x as i64) + 0x1_0000_0000) as u32
    }
}

/// The signed number that has the bits of `x` in two's complement.
pub fn signed16(x: u16) -> (r: i16)
    ensures
        r == as_signed16(x as int),
        spec_bits16(r) == x,
{
    if x >= 0x8000 {
        ((x as i32) - 0x1_0000) as i16
    } else {
        x as i16
    }
}

/// The bits of `x` in two's complement, as an unsigned number.
pub fn bits16(x: i16) -> (r: u16)
    ensures
        r == spec_bits16(x),
        as_signed16(r as int) == x,
{
    if x >= 0 {
        x as u16
    } else {
        ((x as i32) + 0x1_0000) as u16
    }
}

/// The signed value of a 32-bit two's complement number.
pub open spec fn as_signed32(x: int) -> int {
    if x >= 0x8000_0000 {
        x - 0x1_0000_0000
    } else {
        x
    }
}

/// The signed value of a 16-bit two's complement number.
pub open spec fn as_signed16(x: int) -> int {
    if x >= 0x8000 {
        x - 0x1_0000
    } else {
        x
    }
}

/// The bytes of `n` 64-bit words, each least significant byte first.
pub open spec fn words_le(words: Seq<u64>) -> Seq<u8> {
    Seq::new((8 * words.len()) as nat, |i: int| u64_le(words[i / 8])[i % 8])
}

pub proof fn lemma_u16_le(x: u16)
    ensures
        u16_le(x).len() == 2,
        le_u16(u16_le(x), 0) == x,
{
}

pub proof fn lemma_u32_le(x: u32)
    ensures
        u32_le(x).len() == 4,
        le_u32(u32_le(x), 0) == x,
{
    let lo = (x % 0x1_0000) as u16;
    let hi = (x / 0x1_0000) as u16;
    lemma_u16_le(lo);
    lemma_u16_le(hi);
    let b = u32_le(x);
    assert(b[0] == u16_le(lo)[0] && b[1] == u16_le(lo)[1]);
    assert(b[2] == u16_le(hi)[0] && b[3] == u16_le(hi)[1]);
}

pub proof fn lemma_u64_le(x: u64)
    ensures
        u64_le(x).len() == 8,
        le_u64(u64_le(x), 0) == x,
{
    let lo = (x % 0x1_0000_0000) as u32;
    let hi = (x / 0x1_0000_0000) as u32;
    lemma_u32_le(lo);
    lemma_u32_le(hi);
    let b = u64_le(x);
    let l = u32_le(lo);
    let h = u32_le(hi);
    assert(b[0] == l[0] && b[1] == l[1] && b[2] == l[2] && b[3] == l[3]);
    assert(b[4] == h[0] && b[5] == h[1] && b[6] == h[2] && b[7] == h[3]);
}

/// Reading where a number was written gives the number back, whatever
/// stands before and after it.
pub proof fn lemma_le_u64_at(pre: Seq<u8>, x: u64, post: Seq<u8>)
    ensures
        le_u64(pre + u64_le(x) + post, pre.len() as int) == x,
{
    lemma_u64_le(x);
    let w = u64_le(x);
    let b = pre + w + post;
    let n = pre.len() as int;
    assert forall|i: int| 0 <= i < 8 implies byte_at(b, n + i) == byte_at(w, i) by {
        assert(b[n + i] == w[i]);
    }
    assert(byte_at(b, n + 0) == byte_at(w, 0));
    assert(byte_at(b, n + 1) == byte_at(w, 1));
    assert(byte_at(b, n + 2) == byte_at(w, 2));
    assert(byte_at(b, n + 3) == byte_at(w, 3));
    assert(byte_at(b, n + 4) == byte_at(w, 4));
    assert(byte_at(b, n + 5) == byte_at(w, 5));
    assert(byte_at(b, n + 6) == byte_at(w, 6));
    assert(byte_at(b, n + 7) == byte_at(w, 7));
}

/// As [`lemma_le_u64_at`], for a 32-bit number.
pub proof fn lemma_le_u32_at(pre: Seq<u8>, x: u32, post: Seq<u8>)
    ensures
        le_u32(pre + u32_le(x) + post, pre.len() as int) == x,
{
    lemma_u32_le(x);
    let w = u32_le(x);
    let b = pre + w + post;
    let n = pre.len() as int;
    assert forall|i: int| 0 <= i < 4 implies byte_at(b, n + i) == byte_at(w, i) by {
        assert(b[n + i] == w[i]);
    }
    assert(byte_at(b, n + 0) == byte_at(w, 0));
    assert(byte_at(b, n + 1) == byte_at(w, 1));
    assert(byte_at(b, n + 2) == byte_at(w, 2));
    assert(byte_at(b, n + 3) == byte_at(w, 3));
}

/// As [`lemma_le_u64_at`], for a 16-bit number.
pub proof fn lemma_le_u16_at(pre: Seq<u8>, x: u16, post: Seq<u8>)
    ensures
        le_u16(pre + u16_le(x) + post, pre.len() as int) == x,
{
    lemma_u16_le(x);
    let w = u16_le(x);
    let b = pre + w + post;
    let n = pre.len() as int;
    assert(b[n + 0] == w[0]);
    assert(b[n + 1] == w[1]);
}

/// A 16-bit number is read wherever its two bytes lie.
pub proof fn lemma_le_u16_window(b: Seq<u8>, off: int, x: u16)
    requires
        0 <= off,
        off + 2 <= b.len(),
        forall|i: int| 0 <= i < 2 ==> b[off + i] == #[trigger] u16_le(x)[i],
    ensures
        le_u16(b, off) == x,
{
    lemma_u16_le(x);
    let w = u16_le(x);
    assert(b[off + 0] == w[0]);
    assert(b[off + 1] == w[1]);
}

/// A 32-bit number is read wherever its four bytes lie.
pub proof fn lemma_le_u32_window(b: Seq<u8>, off: int, x: u32)
    requires
        0 <= off,
        off + 4 <= b.len(),
        forall|i: int| 0 <= i < 4 ==> b[off + i] == #[trigger] u32_le(x)[i],
    ensures
        le_u32(b, off) == x,
{
    lemma_u32_le(x);
    let w = u32_le(x);
    assert(b[off + 0] == w[0]);
    assert(b[off + 1] == w[1]);
    assert(b[off + 2] == w[2]);
    assert(b[off + 3] == w[3]);
}

/// A 64-bit number is read wherever its eight bytes lie.
pub proof fn lemma_le_u64_window(b: Seq<u8>, off: int, x: u64)
    requires
        0 <= off,
        off + 8 <= b.len(),
        forall|i: int| 0 <= i < 8 ==> b[off + i] == #[trigger] u64_le(x)[i],
    ensures
        le_u64(b, off) == x,
{
    lemma_u64_le(x);
    let w = u64_le(x);
    assert(b[off + 0] == w[0]);
    assert(b[off + 1] == w[1]);
    assert(b[off + 2] == w[2]);
    assert(b[off + 3] == w[3]);
    assert(b[off + 4] == w[4]);
    assert(b[off + 5] == w[5]);
    assert(b[off + 6] == w[6]);
    assert(b[off + 7] == w[7]);
}

/// Each word of a word sequence can be read back from its bytes.
pub proof fn lemma_words_le(words: Seq<u64>, k: int)
    requires
        0 <= k < words.len(),
    ensures
        words_le(words).len() == 8 * words.len(),
        le_u64(words_le(words), 8 * k) == words[k],
{
    let b = words_le(words);
    let w = u64_le(words[k]);
    lemma_u64_le(words[k]);
    assert forall|i: int| 0 <= i < 8 implies byte_at(b, 8 * k + i) == byte_at(w, i) by {
        assert((8 * k + i) / 8 == k);
        assert((8 * k + i) % 8 == i);
        assert(b[8 * k + i] == w[i]);
    }
    assert(byte_at(b, 8 * k + 0) == byte_at(w, 0));
    assert(byte_at(b, 8 * k + 1) == byte_at(w, 1));
    assert(byte_at(b, 8 * k + 2) == byte_at(w, 2));
    assert(byte_at(b, 8 * k + 3) == byte_at(w, 3));
    assert(byte_at(b, 8 * k + 4) == byte_at(w, 4));
    assert(byte_at(b, 8 * k + 5) == byte_at(w, 5));
    assert(byte_at(b, 8 * k + 6) == byte_at(w, 6));
    assert(byte_at(b, 8 * k + 7) == byte_at(w, 7));
}

/// Reads the byte at `off + i`, or zero beyond the end of the buffer.
pub fn read_u8(b: &[u8], off: usize, i: usize) -> (r: u8)
    ensures
        r == byte_at(b@, off + i),
{
    if off < b.len() && i < b.len() - off {
        b[off + i]
    } else {
        0
    }
}

/// Reads the 16-bit little-endian number at `off`.
pub fn read_u16(b: &[u8], off: usize) -> (r: u16)
    ensures
        r == le_u16(b@, off as int),
{
    let b0: u16 = read_u8(b, off, 0) as u16;
    let b1: u16 = read_u8(b, off, 1) as u16;
    b0 + 0x100 * b1
}

/// Reads the 32-bit little-endian number at `off`.
pub fn read_u32(b: &[u8], off: usize) -> (r: u32)
    ensures
        r == le_u32(b@, off as int),
{
    let b0: u32 = read_u8(b, off, 0) as u32;
    let b1: u32 = read_u8(b, off, 1) as u32;
    let b2: u32 = read_u8(b, off, 2) as u32;
    let b3: u32 = read_u8(b, off, 3) as u32;
    b0 + 0x100 * b1 + 0x1_0000 * b2 + 0x100_0000 * b3
}

/// Reads the 64-bit little-endian number at `off`.
pub fn read_u64(b: &[u8], off: usize) -> (r: u64)
    ensures
        r == le_u64(b@, off as int),
{
    let b0: u64 = read_u8(b, off, 0) as u64;
    let b1: u64 = read_u8(b, off, 1) as u64;
    let b2: u64 = read_u8(b, off, 2) as u64;
    let b3: u64 = read_u8(b, off, 3) as u64;
    let b4: u64 = read_u8(b, off, 4) as u64;
    let b5: u64 = read_u8(b, off, 5) as u64;
    let b6: u64 = read_u8(b, off, 6) as u64;
    let b7: u64 = read_u8(b, off, 7) as u64;
    b0 + 0x100 * b1 + 0x1_0000 * b2 + 0x100_0000 * b3 + 0x1_0000_0000 * b4 + 0x100_0000_0000 * b5
        + 0x1_0000_0000_0000 * b6 + 0x100_0000_0000_0000 * b7
}

/// Appends the two bytes of `x`, least significant first.
pub fn push_u16(v: &mut Vec<u8>, x: u16)
    ensures
        final(v)@ == old(v)@ + u16_le(x),
{
    v.push((x % 0x100) as u8);
    v.push((x / 0x100) as u8);
    assert(v@ =~= old(v)@ + u16_le(x));
}

/// Appends the four bytes of `x`, least significant first.
pub fn push_u32(v: &mut Vec<u8>, x: u32)
    ensures
        final(v)@ == old(v)@ + u32_le(x),
{
    push_u16(v, (x % 0x1_0000) as u16);
    push_u16(v, (x / 0x1_0000) as u16);
    assert(v@ =~= old(v)@ + u32_le(x));
}

/// Appends the eight bytes of `x`, least significant first.
pub fn push_u64(v: &mut Vec<u8>, x: u64)
    ensures
        final(v)@ == old(v)@ + u64_le(x),
{
    push_u32(v, (x % 0x1_0000_0000) as u32);
    push_u32(v, (x / 0x1_0000_0000) as u32);
    assert(v@ =~= old(v)@ + u64_le(x));
}

/// The bytes of a sequence of 64-bit words, each least significant byte
/// first.
pub fn encode_words(words: &[u64]) -> (v: Vec<u8>)
    requires
        8 * words@.len() <= usize::MAX,
    ensures
        v@ == words_le(words@),
{
    let mut v: Vec<u8> = Vec::new();
    let mut i: usize = 0;
    while i < words.len()
        invariant
            i <= words.len(),
            v@ == words_le(words@.subrange(0, i as int)),
        decreases words.len() - i,
    {
        let ghost before = v@;
        push_u64(&mut v, words[i]);
        proof {
            lemma_u64_le(words[i as int]);
            let next = words@.subrange(0, i + 1);
            assert forall|j: int| 0 <= j < 8 * (i + 1) implies v@[j] == words_le(next)[j] by {
                if j < 8 * i {
                    assert(before[j] == u64_le(words@.subrange(0, i as int)[j / 8])[j % 8]);
                } else {
                    assert(j / 8 == i as int);
                    assert(v@[j] == u64_le(words[i as int])[j - 8 * i]);
                }
            }
            assert(v@ =~= words_le(next));
        }
        i += 1;
    }
    assert(words@.subrange(0, i as int) =~= words@);
    v
}

/// A type with a fixed layout in memory that the kernel reads or writes.
pub trait Layout: Sized {
    /// The number of bytes the structure occupies.
    spec fn spec_size() -> nat;

    /// The bytes of a value, as they lie in memory.
    spec fn spec_encode(&self) -> Seq<u8>;

    /// The value that a buffer holds; bytes the buffer lacks read as zero.
    spec fn spec_decode(bytes: Seq<u8>) -> Self;

    /// A value occupies exactly its size, and decoding its bytes gives it
    /// back.
    proof fn lemma_round_trip(&self)
        ensures
            self.spec_encode().len() == Self::spec_size(),
            Self::spec_decode(self.spec_encode()) == *self,
    ;

    fn size() -> (n: usize)
        ensures
            n == Self::spec_size(),
    ;

    fn encode(&self) -> (bytes: Vec<u8>)
        ensures
            bytes@ == self.spec_encode(),
    ;

    fn decode(bytes: &[u8]) -> (value: Self)
        ensures
            value == Self::spec_decode(bytes@),
    ;
}

impl Layout for i32 {
    open spec fn spec_size() -> nat {
        4
    }

    open spec fn spec_encode(&self) -> Seq<u8> {
        u32_le(spec_bits32(*self))
    }

    open spec fn spec_decode(bytes: Seq<u8>) -> Self {
        as_signed32(le_u32(bytes, 0)) as i32
    }

    proof fn lemma_round_trip(&self) {
        lemma_u32_le(spec_bits32(*self));
    }

    fn size() -> (n: usize) {
        4
    }

    fn encode(&self) -> (bytes: Vec<u8>) {
        let mut v: Vec<u8> = Vec::new();
        push_u32(&mut v, bits32(*self));
        assert(v@ =~= self.spec_encode());
        v
    }

    fn decode(bytes: &[u8]) -> (value: Self) {
        signed32(read_u32(bytes, 0))
    }
}

} // verus!
