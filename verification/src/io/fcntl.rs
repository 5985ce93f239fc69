//! Typed `fcntl` commands.
//!
//! A command value carries its command code together with the types of its
//! argument and result, so that the raw argument and the raw result of the
//! call are always interpreted the same way.

use vstd::prelude::*;
use core::marker::PhantomData;
use crate::io::fd::File;
use crate::sys::args::AsRawV;
use crate::sys::call::Arg;
use crate::sys::layout::{
    as_signed16, as_signed32, as_signed64, bits16, bits32, bits64, le_u16, le_u32, le_u64,
    lemma_u16_le, lemma_u32_le, lemma_u64_le,
    push_u16, push_u32, push_u64, read_u16, read_u32, read_u64, signed16, signed32, signed64,
    spec_bits16, spec_bits32, spec_bits64, u16_le, u32_le, u64_le, Layout,
};
use crate::sys::types::flock;

verus! {

/// Implemented by types that can be returned by `fcntl` calls.
pub trait FromFcntlResult: Sized {
    /// The value that a raw result stands for.
    spec fn spec_prepare_result(raw: i32) -> Self;

    fn prepare_result(raw: i32) -> (r: Self)
        ensures
            r == Self::spec_prepare_result(raw),
    ;
}

impl FromFcntlResult for i32 {
    open spec fn spec_prepare_result(raw: i32) -> Self {
        raw
    }

    fn prepare_result(raw: i32) -> (r: Self) {
        raw
    }
}

impl FromFcntlResult for () {
    open spec fn spec_prepare_result(raw: i32) -> Self {
        ()
    }

    fn prepare_result(raw: i32) -> (r: Self) {
        ()
    }
}

impl FromFcntlResult for File<()> {
    /// The handle that wraps the returned integer as its descriptor.
    open spec fn spec_prepare_result(raw: i32) -> Self {
        crate::io::fd::spec_file_of(raw)
    }

    fn prepare_result(raw: i32) -> (r: Self) {
        File::from_fd(raw)
    }
}

/// A particular command that can be used with the `fcntl` system call.
pub trait FcntlCmd: Sized {
    /// The type that the caller provides when using this command.
    type ExtArg;

    /// The type of the result of the call.
    type Result;

    /// The command code.
    spec fn spec_cmd(&self) -> i32;

    /// How the argument reaches the kernel.
    spec fn spec_arg(&self, arg: &Self::ExtArg) -> Arg;

    /// The bytes the kernel reads through the argument pointer; empty
    /// where the command passes none.
    spec fn spec_data(&self, arg: &Self::ExtArg) -> Seq<u8>;

    /// What a successful call means, given the integer it returned.
    spec fn spec_result(&self, raw: i32) -> Self::Result;

    /// Prepares the command code, the argument and the bytes behind it for
    /// a `fcntl` system call.
    fn prepare_fcntl_args(&self, arg: &Self::ExtArg) -> (r: (i32, Arg, Vec<u8>))
        ensures
            r.0 == self.spec_cmd(),
            r.1 == self.spec_arg(arg),
            r.2@ == self.spec_data(arg),
    ;

    /// Prepares the result of a successful `fcntl` call to be returned.
    fn prepare_fcntl_result(&self, raw: i32) -> (r: Self::Result)
        ensures
            r == self.spec_result(raw),
    ;
}

/// A command with a fixed code that passes its argument directly through
/// to the system call.
pub struct DirectFcntlCmd<A: AsRawV, Result: FromFcntlResult> {
    cmd: i32,
    _phantom: PhantomData<(A, Result)>,
}

/// A command with a fixed code that passes a pointer to its argument,
/// which the kernel only reads.
pub struct ConstPtrFcntlCmd<A: Layout, Result: FromFcntlResult> {
    cmd: i32,
    _phantom: PhantomData<(A, Result)>,
}

/// A command with a fixed code that passes a pointer to its argument,
/// which the kernel reads and may overwrite. What the kernel left there is
/// read with [`Layout::decode`].
pub struct MutPtrFcntlCmd<A: Layout, Result: FromFcntlResult> {
    cmd: i32,
    _phantom: PhantomData<(A, Result)>,
}

/// Constructs a command whose argument maps directly to the raw system
/// call argument.
pub fn fcntl_cmd<A: AsRawV + Copy, Result: FromFcntlResult>(cmd: i32) -> (c: DirectFcntlCmd<
    A,
    Result,
>)
    ensures
        c.spec_cmd() == cmd,
{
    DirectFcntlCmd { cmd, _phantom: PhantomData }
}

/// Constructs a command whose argument is passed by pointer and only read.
pub fn fcntl_cmd_const_ptr<A: Layout, Result: FromFcntlResult>(cmd: i32) -> (c: ConstPtrFcntlCmd<
    A,
    Result,
>)
    ensures
        c.spec_cmd() == cmd,
{
    ConstPtrFcntlCmd { cmd, _phantom: PhantomData }
}

/// Constructs a command whose argument is passed by pointer and may be
/// overwritten.
pub fn fcntl_cmd_mut_ptr<A: Layout, Result: FromFcntlResult>(cmd: i32) -> (c: MutPtrFcntlCmd<
    A,
    Result,
>)
    ensures
        c.spec_cmd() == cmd,
{
    MutPtrFcntlCmd { cmd, _phantom: PhantomData }
}

impl<A: AsRawV + Copy, Result: FromFcntlResult> FcntlCmd for DirectFcntlCmd<A, Result> {
    type ExtArg = A;

    type Result = Result;

    closed spec fn spec_cmd(&self) -> i32 {
        self.cmd
    }

    open spec fn spec_arg(&self, arg: &A) -> Arg {
        if arg.spec_raw_is_void() {
            Arg::Void
        } else {
            Arg::Value(arg.spec_to_raw_arg())
        }
    }

    open spec fn spec_data(&self, arg: &A) -> Seq<u8> {
        Seq::empty()
    }

    open spec fn spec_result(&self, raw: i32) -> Result {
        Result::spec_prepare_result(raw)
    }

    fn prepare_fcntl_args(&self, arg: &A) -> (r: (i32, Arg, Vec<u8>)) {
        if (*arg).raw_is_void() {
            (self.cmd, Arg::Void, Vec::new())
        } else {
            (self.cmd, Arg::Value((*arg).to_raw_arg()), Vec::new())
        }
    }

    fn prepare_fcntl_result(&self, raw: i32) -> (r: Result) {
        Result::prepare_result(raw)
    }
}

impl<A: Layout, Result: FromFcntlResult> FcntlCmd for ConstPtrFcntlCmd<A, Result> {
    type ExtArg = A;

    type Result = Result;

    closed spec fn spec_cmd(&self) -> i32 {
        self.cmd
    }

    open spec fn spec_arg(&self, arg: &A) -> Arg {
        Arg::In
    }

    open spec fn spec_data(&self, arg: &A) -> Seq<u8> {
        arg.spec_encode()
    }

    open spec fn spec_result(&self, raw: i32) -> Result {
        Result::spec_prepare_result(raw)
    }

    fn prepare_fcntl_args(&self, arg: &A) -> (r: (i32, Arg, Vec<u8>)) {
        (self.cmd, Arg::In, arg.encode())
    }

    fn prepare_fcntl_result(&self, raw: i32) -> (r: Result) {
        Result::prepare_result(raw)
    }
}

impl<A: Layout, Result: FromFcntlResult> FcntlCmd for MutPtrFcntlCmd<A, Result> {
    type ExtArg = A;

    type Result = Result;

    closed spec fn spec_cmd(&self) -> i32 {
        self.cmd
    }

    open spec fn spec_arg(&self, arg: &A) -> Arg {
        Arg::InOut
    }

    open spec fn spec_data(&self, arg: &A) -> Seq<u8> {
        arg.spec_encode()
    }

    open spec fn spec_result(&self, raw: i32) -> Result {
        Result::spec_prepare_result(raw)
    }

    fn prepare_fcntl_args(&self, arg: &A) -> (r: (i32, Arg, Vec<u8>)) {
        (self.cmd, Arg::InOut, arg.encode())
    }

    fn prepare_fcntl_result(&self, raw: i32) -> (r: Result) {
        Result::prepare_result(raw)
    }
}

/// Each number of a lock record is read back from its place among the
/// seven pieces of the record.
proof fn lemma_flock_fields(
    p: Seq<u8>,
    q: Seq<u8>,
    l_type: u16,
    l_whence: u16,
    l_start: u64,
    l_len: u64,
    l_pid: u32,
)
    requires
        p.len() == 4,
        q.len() == 4,
    ensures
        ({
            let all = u16_le(l_type) + u16_le(l_whence) + p + u64_le(l_start) + u64_le(l_len)
                + u32_le(l_pid) + q;
            &&& all.len() == 32
            &&& le_u16(all, 0) == l_type
            &&& le_u16(all, 2) == l_whence
            &&& le_u64(all, 8) == l_start
            &&& le_u64(all, 16) == l_len
            &&& le_u32(all, 24) == l_pid
        }),
{
    let a = u16_le(l_type);
    let b = u16_le(l_whence);
    let c = u64_le(l_start);
    let d = u64_le(l_len);
    let e = u32_le(l_pid);
    let all = a + b + p + c + d + e + q;
    lemma_u16_le(l_type);
    lemma_u16_le(l_whence);
    lemma_u64_le(l_start);
    lemma_u64_le(l_len);
    lemma_u32_le(l_pid);
    assert(all.len() == 32);
    assert forall|i: int| 0 <= i < 2 implies all[0 + i] == #[trigger] a[i] by {}
    crate::sys::layout::lemma_le_u16_window(all, 0, l_type);
    assert forall|i: int| 0 <= i < 2 implies all[2 + i] == #[trigger] b[i] by {}
    crate::sys::layout::lemma_le_u16_window(all, 2, l_whence);
    assert forall|i: int| 0 <= i < 8 implies all[8 + i] == #[trigger] c[i] by {}
    crate::sys::layout::lemma_le_u64_window(all, 8, l_start);
    assert forall|i: int| 0 <= i < 8 implies all[16 + i] == #[trigger] d[i] by {}
    crate::sys::layout::lemma_le_u64_window(all, 16, l_len);
    assert forall|i: int| 0 <= i < 4 implies all[24 + i] == #[trigger] e[i] by {}
    crate::sys::layout::lemma_le_u32_window(all, 24, l_pid);
}

/// Four zero bytes of padding.
pub open spec fn padding4() -> Seq<u8> {
    seq![0u8, 0u8, 0u8, 0u8]
}

impl Layout for flock {
    open spec fn spec_size() -> nat {
        32
    }

    /// The lock type and the starting point, four bytes of padding, the
    /// start and the length, the process id, and four bytes of padding.
    open spec fn spec_encode(&self) -> Seq<u8> {
        u16_le(spec_bits16(self.l_type)) + u16_le(spec_bits16(self.l_whence)) + padding4() + u64_le(
            spec_bits64(self.l_start),
        ) + u64_le(spec_bits64(self.l_len)) + u32_le(spec_bits32(self.l_pid)) + padding4()
    }

    open spec fn spec_decode(bytes: Seq<u8>) -> Self {
        flock {
            l_type: as_signed16(le_u16(bytes, 0)) as i16,
            l_whence: as_signed16(le_u16(bytes, 2)) as i16,
            l_start: as_signed64(le_u64(bytes, 8)) as i64,
            l_len: as_signed64(le_u64(bytes, 16)) as i64,
            l_pid: as_signed32(le_u32(bytes, 24)) as i32,
        }
    }

    proof fn lemma_round_trip(&self) {
        lemma_flock_fields(
            padding4(),
            padding4(),
            spec_bits16(self.l_type),
            spec_bits16(self.l_whence),
            spec_bits64(self.l_start),
            spec_bits64(self.l_len),
            spec_bits32(self.l_pid),
        );
    }

    fn size() -> (n: usize) {
        32
    }

    fn encode(&self) -> (bytes: Vec<u8>) {
        let mut v: Vec<u8> = Vec::new();
        push_u16(&mut v, bits16(self.l_type));
        push_u16(&mut v, bits16(self.l_whence));
        v.push(0);
        v.push(0);
        v.push(0);
        v.push(0);
        assert(v@ =~= u16_le(spec_bits16(self.l_type)) + u16_le(spec_bits16(self.l_whence))
            + padding4());
        push_u64(&mut v, bits64(self.l_start));
        push_u64(&mut v, bits64(self.l_len));
        push_u32(&mut v, bits32(self.l_pid));
        let ghost head = v@;
        v.push(0);
        v.push(0);
        v.push(0);
        v.push(0);
        assert(v@ =~= head + padding4());
        v
    }

    fn decode(bytes: &[u8]) -> (value: Self) {
        flock {
            l_type: signed16(read_u16(bytes, 0)),
            l_whence: signed16(read_u16(bytes, 2)),
            l_start: signed64(read_u64(bytes, 8)),
            l_len: signed64(read_u64(bytes, 16)),
            l_pid: signed32(read_u32(bytes, 24)),
        }
    }
}

/// Duplicates the file descriptor using the lowest-numbered available
/// file descriptor greater than or equal to the argument.
#[allow(non_snake_case)]
pub fn F_DUPFD() -> (c: DirectFcntlCmd<i32, File<()>>)
    ensures
        c.spec_cmd() == 0,
{
    fcntl_cmd(0)
}

/// Retrieves the file descriptor flags.
#[allow(non_snake_case)]
pub fn F_GETFD() -> (c: DirectFcntlCmd<(), i32>)
    ensures
        c.spec_cmd() == 1,
{
    fcntl_cmd(1)
}

/// Sets the file descriptor flags.
#[allow(non_snake_case)]
pub fn F_SETFD() -> (c: DirectFcntlCmd<i32, ()>)
    ensures
        c.spec_cmd() == 2,
{
    fcntl_cmd(2)
}

/// Retrieves the file access mode and the file status flags.
#[allow(non_snake_case)]
pub fn F_GETFL() -> (c: DirectFcntlCmd<(), i32>)
    ensures
        c.spec_cmd() == 3,
{
    fcntl_cmd(3)
}

/// Sets the file status flags.
#[allow(non_snake_case)]
pub fn F_SETFL() -> (c: DirectFcntlCmd<i32, ()>)
    ensures
        c.spec_cmd() == 4,
{
    fcntl_cmd(4)
}

/// Places a lock on the file.
#[allow(non_snake_case)]
pub fn F_GETLK() -> (c: MutPtrFcntlCmd<flock, ()>)
    ensures
        c.spec_cmd() == 5,
{
    fcntl_cmd_mut_ptr(5)
}

/// Acquires a lock or releases a lock on the file.
#[allow(non_snake_case)]
pub fn F_SETLK() -> (c: MutPtrFcntlCmd<flock, ()>)
    ensures
        c.spec_cmd() == 6,
{
    fcntl_cmd_mut_ptr(6)
}

/// Acquires a lock or releases a lock on the file, waiting for any
/// conflicting lock to be released.
#[allow(non_snake_case)]
pub fn F_SETLKW() -> (c: MutPtrFcntlCmd<flock, ()>)
    ensures
        c.spec_cmd() == 7,
{
    fcntl_cmd_mut_ptr(7)
}

/// Places a lock on the file description of the file.
#[allow(non_snake_case)]
pub fn F_OFD_GETLK() -> (c: MutPtrFcntlCmd<flock, ()>)
    ensures
        c.spec_cmd() == 36,
{
    fcntl_cmd_mut_ptr(36)
}

/// Acquires a lock or releases a lock on the file description of the
/// file.
#[allow(non_snake_case)]
pub fn F_OFD_SETLK() -> (c: MutPtrFcntlCmd<flock, ()>)
    ensures
        c.spec_cmd() == 37,
{
    fcntl_cmd_mut_ptr(37)
}

/// Acquires a lock or releases a lock on the file description of the
/// file, waiting for any conflicting lock to be released.
#[allow(non_snake_case)]
pub fn F_OFD_SETLKW() -> (c: MutPtrFcntlCmd<flock, ()>)
    ensures
        c.spec_cmd() == 38,
{
    fcntl_cmd_mut_ptr(38)
}

/// The base of the command codes that only Linux has.
pub const F_LINUX_SPECIFIC_BASE: i32 = 1024;

/// Duplicates the file descriptor as [`F_DUPFD`] does, setting the
/// close-on-exec flag on the new descriptor.
#[allow(non_snake_case)]
pub fn F_DUPFD_CLOEXEC() -> (c: DirectFcntlCmd<i32, i32>)
    ensures
        c.spec_cmd() == 1030,
{
    fcntl_cmd(F_LINUX_SPECIFIC_BASE + 6)
}

} // verus!
