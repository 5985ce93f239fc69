//! Directory entries, as `getdents64` lays them out in a buffer.
//!
//! Each record starts with a fixed header (the inode number in bytes 0 to
//! 7, the offset of the next entry in bytes 8 to 15, the length of the
//! record in bytes 16 and 17, the entry type in byte 18) and goes on with
//! the name from byte 19, which a zero byte ends. The kernel pads each
//! record so that the next one is aligned to eight bytes.

use vstd::prelude::*;
use vstd::slice::slice_subrange;
use vstd::std_specs::convert::FromSpecImpl;
use crate::io::result::{check, spec_check, Error};
use crate::sys::call::{Op, Syscall};
use crate::sys::layout::{as_signed64, le_u16, le_u64, read_u16, read_u64};
use crate::sys::result::is_error_word;

verus! {

/// The size of the fixed part of a record, padded to its alignment: no
/// record is shorter.
pub const HEADER_SIZE: usize = 24;

/// The offset of the name in a record.
pub const NAME_OFFSET: usize = 19;

/// Directory entry type.
#[derive(Debug, Eq, PartialEq, Clone, Copy, Structural)]
pub enum DirEntryType {
    Unknown,
    Fifo,
    Chr,
    Dir,
    Blk,
    Reg,
    Lnk,
    Sock,
    Wht,
}

impl DirEntryType {
    /// The entry type that the type byte of a record stands for; a byte
    /// that names no type stands for `Unknown`.
    pub open spec fn spec_from(value: u8) -> DirEntryType {
        if value == 1 {
            DirEntryType::Fifo
        } else if value == 2 {
            DirEntryType::Chr
        } else if value == 4 {
            DirEntryType::Dir
        } else if value == 6 {
            DirEntryType::Blk
        } else if value == 8 {
            DirEntryType::Reg
        } else if value == 10 {
            DirEntryType::Lnk
        } else if value == 12 {
            DirEntryType::Sock
        } else if value == 14 {
            DirEntryType::Wht
        } else {
            DirEntryType::Unknown
        }
    }

    /// The type byte that stands for the entry type.
    pub open spec fn spec_raw(self) -> u8 {
        match self {
            DirEntryType::Unknown => 0,
            DirEntryType::Fifo => 1,
            DirEntryType::Chr => 2,
            DirEntryType::Dir => 4,
            DirEntryType::Blk => 6,
            DirEntryType::Reg => 8,
            DirEntryType::Lnk => 10,
            DirEntryType::Sock => 12,
            DirEntryType::Wht => 14,
        }
    }

    pub fn raw(self) -> (value: u8)
        ensures
            value == self.spec_raw(),
    {
        match self {
            DirEntryType::Unknown => crate::sys::types::DT_UNKNOWN,
            DirEntryType::Fifo => crate::sys::types::DT_FIFO,
            DirEntryType::Chr => crate::sys::types::DT_CHR,
            DirEntryType::Dir => crate::sys::types::DT_DIR,
            DirEntryType::Blk => crate::sys::types::DT_BLK,
            DirEntryType::Reg => crate::sys::types::DT_REG,
            DirEntryType::Lnk => crate::sys::types::DT_LNK,
            DirEntryType::Sock => crate::sys::types::DT_SOCK,
            DirEntryType::Wht => crate::sys::types::DT_WHT,
        }
    }

    /// Every entry type is the type that its own type byte stands for.
    pub proof fn lemma_raw_round_trip(self)
        ensures
            Self::spec_from(self.spec_raw()) == self,
    {
    }
}

impl From<u8> for DirEntryType {
    fn from(value: u8) -> (t: Self) {
        if value == crate::sys::types::DT_FIFO {
            DirEntryType::Fifo
        } else if value == crate::sys::types::DT_CHR {
            DirEntryType::Chr
        } else if value == crate::sys::types::DT_DIR {
            DirEntryType::Dir
        } else if value == crate::sys::types::DT_BLK {
            DirEntryType::Blk
        } else if value == crate::sys::types::DT_REG {
            DirEntryType::Reg
        } else if value == crate::sys::types::DT_LNK {
            DirEntryType::Lnk
        } else if value == crate::sys::types::DT_SOCK {
            DirEntryType::Sock
        } else if value == crate::sys::types::DT_WHT {
            DirEntryType::Wht
        } else {
            DirEntryType::Unknown
        }
    }
}

impl FromSpecImpl<u8> for DirEntryType {
    open spec fn obeys_from_spec() -> bool {
        true
    }

    open spec fn from_spec(v: u8) -> Self {
        DirEntryType::spec_from(v)
    }
}

/// A single directory entry extracted from a buffer populated by
/// `getdents64`.
#[derive(Debug, Clone, Copy)]
pub struct DirEntry<'a> {
    pub ino: u64,
    pub off: i64,
    pub entry_type: DirEntryType,
    /// The bytes of the name, without the zero byte that ends it.
    pub name: &'a [u8],
}

/// The record length that the header at the start of `buf` claims.
pub open spec fn spec_reclen(buf: Seq<u8>) -> int {
    le_u16(buf, 16)
}

/// Whether `buf` starts with a whole record: there is room for a header,
/// the claimed record length is neither shorter than a header nor longer
/// than the buffer, and a zero byte ends the name within the record.
pub open spec fn spec_valid_entry(buf: Seq<u8>) -> bool {
    &&& buf.len() >= HEADER_SIZE
    &&& HEADER_SIZE <= spec_reclen(buf) <= buf.len()
    &&& exists|k: int| NAME_OFFSET <= k < spec_reclen(buf) && buf[k] == 0
}

impl<'a> DirEntry<'a> {
    /// Whether `self` is the entry that the record at the start of `buf`
    /// holds: the header fields read from their places, and as the name the
    /// bytes from the name offset up to the first zero byte.
    pub open spec fn is_first_of(&self, buf: Seq<u8>) -> bool {
        &&& self.ino == le_u64(buf, 0)
        &&& self.off == as_signed64(le_u64(buf, 8))
        &&& self.entry_type == DirEntryType::spec_from(buf[18])
        &&& NAME_OFFSET + self.name@.len() < spec_reclen(buf)
        &&& self.name@ == buf.subrange(NAME_OFFSET as int, NAME_OFFSET + self.name@.len())
        &&& buf[NAME_OFFSET + self.name@.len()] == 0
        &&& forall|j: int| 0 <= j < self.name@.len() ==> self.name@[j] != 0
    }
}

/// Reads the entry at the start of `buf`. Where `buf` starts with a whole
/// record, returns the entry and the bytes that follow the record;
/// otherwise returns no entry and `buf` itself.
pub fn dir_entry_from_buf<'a>(buf: &'a [u8]) -> (r: (Option<DirEntry<'a>>, &'a [u8]))
    ensures
        r.0 is Some <==> spec_valid_entry(buf@),
        r.0 is Some ==> r.0->Some_0.is_first_of(buf@) && r.1@ == buf@.subrange(
            spec_reclen(buf@),
            buf@.len() as int,
        ),
        r.0 is None ==> r.1@ == buf@,
{
    if buf.len() < HEADER_SIZE {
        // Not enough bytes left for an entry.
        return (None, buf);
    }
    let claimed_len: usize = read_u16(buf, 16) as usize;
    if buf.len() < claimed_len || claimed_len < HEADER_SIZE {
        // Not enough room for the claimed length, or claimed length
        // shorter than the header. Neither is valid.
        return (None, buf);
    }
    let mut end: usize = NAME_OFFSET;
    while end < claimed_len && buf[end] != 0
        invariant
            NAME_OFFSET <= end <= claimed_len,
            claimed_len <= buf.len(),
            forall|k: int| NAME_OFFSET <= k < end ==> buf@[k] != 0,
        decreases claimed_len - end,
    {
        end += 1;
    }
    if end == claimed_len {
        // No zero byte ends the name within the record.
        return (None, buf);
    }
    let ino: u64 = read_u64(buf, 0);
    let off_bits: u64 = read_u64(buf, 8);
    let off: i64 = crate::sys::layout::signed64(off_bits);
    let entry_type: DirEntryType = DirEntryType::from(buf[18]);
    let name = slice_subrange(buf, NAME_OFFSET, end);
    let remain = slice_subrange(buf, claimed_len, buf.len());
    let ret = DirEntry { ino, off, entry_type, name };
    (Some(ret), remain)
}

/// Reads the entry at the start of `buf` and says how many bytes to
/// advance: the length of the record where there is an entry, the whole
/// buffer where there is none.
pub fn try_read_entry<'a>(buf: &'a [u8]) -> (r: (Option<DirEntry<'a>>, usize))
    ensures
        r.0 is Some <==> spec_valid_entry(buf@),
        r.0 is Some ==> r.0->Some_0.is_first_of(buf@) && r.1 == spec_reclen(buf@),
        r.0 is None ==> r.1 == buf@.len(),
        r.1 <= buf@.len(),
{
    if buf.len() == 0 {
        return (None, 0);
    }
    let (ret, remain) = dir_entry_from_buf(buf);
    match ret {
        Some(entry) => {
            let advance: usize = buf.len() - remain.len();
            (Some(entry), advance)
        },
        None => (None, buf.len()),
    }
}

/// An iterator over the directory entries in an already-populated
/// `getdents64` result buffer.
pub struct DirEntries<'a> {
    remain: &'a [u8],
}

impl<'a> View for DirEntries<'a> {
    type V = Seq<u8>;

    /// The bytes not yet turned into entries.
    closed spec fn view(&self) -> Seq<u8> {
        self.remain@
    }
}

/// The number of entries that an iterator over `buf` yields: the whole
/// records from the start of the buffer up to the first place where none
/// starts.
pub open spec fn spec_count(buf: Seq<u8>) -> nat
    decreases buf.len(),
{
    if spec_valid_entry(buf) {
        1 + spec_count(buf.subrange(spec_reclen(buf), buf.len() as int))
    } else {
        0
    }
}

impl<'a> DirEntries<'a> {
    pub fn from_getdents64_buffer(buf: &'a [u8]) -> (d: Self)
        ensures
            d@ == buf@,
    {
        DirEntries { remain: buf }
    }

    /// Consumes the iterator and returns the bytes that it has not yet
    /// turned into entries. The result can be passed back to
    /// [`Self::from_getdents64_buffer`] to go on.
    pub fn to_remaining_bytes(self) -> (b: &'a [u8])
        ensures
            b@ == self@,
    {
        self.remain
    }

    /// The next entry, if the remaining bytes start with a whole record;
    /// the iterator then stands behind that record. Otherwise there is no
    /// entry and the iterator stays where it is.
    pub fn next(&mut self) -> (r: Option<DirEntry<'a>>)
        ensures
            r is Some <==> spec_valid_entry(old(self)@),
            r is Some ==> r->Some_0.is_first_of(old(self)@) && final(self)@ == old(self)@.subrange(
                spec_reclen(old(self)@),
                old(self)@.len() as int,
            ),
            r is None ==> final(self)@ == old(self)@,
    {
        let (ret, remain) = dir_entry_from_buf(self.remain);
        self.remain = remain;
        ret
    }

    /// The number of entries still to come.
    pub fn count(self) -> (n: usize)
        ensures
            n == spec_count(self@),
    {
        let bound: usize = self.remain.len();
        let mut it = self;
        let mut n: usize = 0;
        let ghost total = spec_count(self@);
        proof {
            lemma_count_bound(self@);
        }
        loop
            invariant
                n + spec_count(it@) == total,
                total == spec_count(self@),
                total <= bound,
            decreases it@.len(),
        {
            let ghost before = it@;
            match it.next() {
                Some(_) => {
                    assert(spec_count(before) == 1 + spec_count(it@));
                    n += 1;
                },
                None => {
                    assert(spec_count(before) == 0);
                    return n;
                },
            }
        }
    }
}

/// A buffer holds fewer entries than bytes.
pub proof fn lemma_count_bound(buf: Seq<u8>)
    ensures
        spec_count(buf) <= buf.len(),
    decreases buf.len(),
{
    if spec_valid_entry(buf) {
        lemma_count_bound(buf.subrange(spec_reclen(buf), buf.len() as int));
    }
}

/// A range of offsets into a buffer, from `start` up to but excluding
/// `end`.
#[derive(Debug, Clone, Copy, PartialEq, Eq, Structural)]
pub struct Range {
    pub start: usize,
    pub end: usize,
}

impl Range {
    pub fn new(start: usize, end: usize) -> (r: Self)
        ensures
            r.start == start,
            r.end == end,
    {
        Range { start, end }
    }
}

/// What a walk over all entries of a directory comes to at one step.
#[derive(Debug)]
pub enum DirStep<'b> {
    /// The next entry.
    Entry(DirEntry<'b>),
    /// The buffer holds no further entry: the host is to make this call,
    /// which has the kernel fill the buffer again, and hand the answer to
    /// [`AllDirEntries::filled`].
    Fill(Syscall),
    /// The walk has ended on an error; there is nothing more to ask.
    Done,
}

/// A walk over all entries of a directory, which has the kernel fill one
/// buffer as often as it takes.
///
/// The buffer belongs to the host, which hands it to each step as the
/// kernel last filled it.
#[derive(Debug)]
pub struct AllDirEntries {
    fd: Option<i32>,
    buf_len: usize,
    rng: Range,
}

impl AllDirEntries {
    #[verifier::type_invariant]
    spec fn well_formed(&self) -> bool {
        self.rng.start <= self.rng.end <= self.buf_len
    }

    /// The descriptor of the directory, while the walk can go on.
    pub closed spec fn spec_fd(&self) -> Option<i32> {
        self.fd
    }

    /// The length of the buffer that the walk was made for.
    pub closed spec fn spec_buf_len(&self) -> usize {
        self.buf_len
    }

    /// The part of the buffer that holds the entries not yet handed out.
    pub closed spec fn spec_range(&self) -> Range {
        self.rng
    }

    /// The bytes of `buf` that hold the entries not yet handed out.
    pub open spec fn spec_window(&self, buf: Seq<u8>) -> Seq<u8> {
        buf.subrange(self.spec_range().start as int, self.spec_range().end as int)
    }

    /// Starts a walk over the directory behind descriptor `fd`, with a
    /// buffer of `buf_len` bytes that holds nothing yet.
    pub fn new(fd: i32, buf_len: usize) -> (a: Self)
        ensures
            a.spec_fd() == Some(fd),
            a.spec_buf_len() == buf_len,
            a.spec_range() == (Range { start: 0, end: 0 }),
    {
        AllDirEntries { fd: Some(fd), buf_len, rng: Range::new(0, 0) }
    }

    /// The range of the buffer that holds the entries not yet handed out;
    /// it lies within the buffer.
    pub fn range(&self) -> (r: Range)
        ensures
            r == self.spec_range(),
            r.start <= r.end <= self.spec_buf_len(),
    {
        proof {
            use_type_invariant(self);
        }
        self.rng
    }

    /// The next step of the walk, with `buf` the buffer as the kernel last
    /// filled it. While the part of the buffer not yet read starts with a
    /// whole record, the step is its entry; once it does not, the step is
    /// the call that fills the buffer again. A walk that has ended on an
    /// error stays ended.
    pub fn next<'b>(&mut self, buf: &'b [u8]) -> (step: DirStep<'b>)
        requires
            buf@.len() == old(self).spec_buf_len(),
        ensures
            final(self).spec_fd() == old(self).spec_fd(),
            final(self).spec_buf_len() == old(self).spec_buf_len(),
            final(self).spec_range().end == old(self).spec_range().end,
            old(self).spec_fd() is None ==> step is Done && final(self).spec_range() == old(
                self,
            ).spec_range(),
            old(self).spec_fd() is Some && spec_valid_entry(old(self).spec_window(buf@)) ==> {
                &&& step matches DirStep::Entry(e)
                &&& e.is_first_of(old(self).spec_window(buf@))
                &&& final(self).spec_range().start == old(self).spec_range().start + spec_reclen(
                    old(self).spec_window(buf@),
                )
            },
            old(self).spec_fd() is Some && !spec_valid_entry(old(self).spec_window(buf@)) ==> {
                &&& step matches DirStep::Fill(c)
                &&& c.op == (Op::Getdents64 {
                    fd: old(self).spec_fd()->Some_0,
                    count: old(self).spec_buf_len() as i32,
                })
                &&& c.data@ == Seq::<u8>::empty()
                &&& final(self).spec_range().start == old(self).spec_range().end
            },
    {
        proof {
            use_type_invariant(&*self);
        }
        match self.fd {
            Some(fd) => {
                let window = slice_subrange(buf, self.rng.start, self.rng.end);
                let (maybe_entry, advance) = try_read_entry(window);
                self.rng = Range::new(self.rng.start + advance, self.rng.end);
                match maybe_entry {
                    Some(entry) => DirStep::Entry(entry),
                    None => DirStep::Fill(
                        Syscall::plain(
                            Op::Getdents64 {
                                fd,
                                count: #[verifier::truncate]
                                (self.buf_len as i32),
                            },
                        ),
                    ),
                }
            },
            None => DirStep::Done,
        }
    }

    /// What the kernel's answer to the call of a [`DirStep::Fill`] means,
    /// with `buf` the buffer as the kernel filled it. Where the kernel
    /// reports an error, the error is handed on and the walk has ended.
    /// Otherwise the walk goes on over the bytes the kernel wrote: with
    /// their first entry, or with nothing where they start with no whole
    /// record, as at the end of the directory.
    pub fn filled<'b>(&mut self, raw: u64, buf: &'b [u8]) -> (r: Option<
        Result<DirEntry<'b>, Error>,
    >)
        requires
            buf@.len() == old(self).spec_buf_len(),
            !is_error_word(raw) ==> raw <= buf@.len(),
        ensures
            final(self).spec_buf_len() == old(self).spec_buf_len(),
            match spec_check(raw) {
                Err(e) => r == Some(Err::<DirEntry<'b>, Error>(e)) && final(self).spec_fd() is None
                    && final(self).spec_range() == old(self).spec_range(),
                Ok(len) => {
                    let filled = buf@.subrange(0, len as int);
                    &&& final(self).spec_fd() == old(self).spec_fd()
                    &&& final(self).spec_range().end == len
                    &&& spec_valid_entry(filled) ==> (r matches Some(Ok(e)) && e.is_first_of(filled)
                        && final(self).spec_range().start == spec_reclen(filled))
                    &&& !spec_valid_entry(filled) ==> r is None && final(self).spec_range().start
                        == len
                },
            },
    {
        proof {
            use_type_invariant(&*self);
        }
        match check(raw) {
            Ok(word) => {
                let result_len: usize = word as usize;
                self.rng = Range::new(0, result_len);
                let window = slice_subrange(buf, 0, result_len);
                let (maybe_entry, advance) = try_read_entry(window);
                self.rng = Range::new(advance, result_len);
                match maybe_entry {
                    Some(entry) => Some(Ok(entry)),
                    None => None,
                }
            },
            Err(e) => {
                self.fd = None;
                Some(Err(e))
            },
        }
    }
}

} // verus!
