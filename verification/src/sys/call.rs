//! System calls as plain values.
//!
//! A [`Syscall`] says which call the host is to make and with which
//! arguments. Where the kernel reads bytes through a pointer (a path, a
//! structure), those bytes travel in [`Syscall::data`]; where it writes
//! through one, the host supplies the memory and hands the bytes written to
//! the function that interprets the result.

use vstd::prelude::*;

verus! {

/// The last argument of an `ioctl` or `fcntl` call.
#[derive(Clone, Copy, Debug, PartialEq, Eq, Structural)]
pub enum Arg {
    /// The call takes no argument; the raw word is zero.
    Void,
    /// The argument travels in the raw word itself.
    Value(u64),
    /// A pointer to the bytes in [`Syscall::data`], which the kernel only
    /// reads.
    In,
    /// A pointer to a zeroed buffer of `len` bytes, which the kernel fills.
    Out { len: usize },
    /// A pointer to the bytes in [`Syscall::data`], which the kernel reads
    /// and may overwrite.
    InOut,
}

/// Which system call to make, with its scalar arguments.
#[allow(inconsistent_fields)]
#[derive(Clone, Copy, Debug, PartialEq, Eq, Structural)]
pub enum Op {
    /// `openat`; the data is the path, with its terminating zero byte.
    Openat { dirfd: i32, flags: i32, mode: u32 },
    Close { fd: i32 },
    Dup { fd: i32 },
    /// `read` into a buffer of `count` bytes.
    Read { fd: i32, count: usize },
    /// `write`; the data is what to write.
    Write { fd: i32 },
    Lseek { fd: i32, offset: i64, whence: i32 },
    /// `_llseek`, for platforms whose `lseek` takes a 32-bit offset.
    Llseek { fd: i32, offset_high: u32, offset_low: u32, whence: u32 },
    Fsync { fd: i32 },
    /// `getdents64` into a buffer of `count` bytes.
    Getdents64 { fd: i32, count: i32 },
    /// `readlinkat` into a buffer of `bufsiz` bytes; the data is the path,
    /// with its terminating zero byte.
    Readlinkat { dirfd: i32, bufsiz: usize },
    /// `statx`; the data is the path, with its terminating zero byte.
    Statx { dirfd: i32, flags: i32, mask: u32 },
    Fcntl { fd: i32, cmd: i32, arg: Arg },
    Ioctl { fd: i32, request: u64, arg: Arg },
    Socket { domain: u16, typ: i32, protocol: i32 },
    /// `bind`; the data is the socket address.
    Bind { fd: i32 },
    /// `connect`; the data is the socket address.
    Connect { fd: i32 },
    Listen { fd: i32, backlog: i32 },
    /// `getsockopt` into a zeroed buffer of `optlen` bytes.
    Getsockopt { fd: i32, level: i32, optname: i32, optlen: i32 },
    /// `setsockopt`; the data is the option value.
    Setsockopt { fd: i32, level: i32, optname: i32 },
    Mmap { addr: usize, length: usize, prot: i32, flags: i32, fd: i32, offset: i64 },
    Munmap { addr: usize, length: usize },
    /// `ppoll` with no signal mask; the data is the array of `pollfd`
    /// records, eight bytes each.
    Ppoll { nfds: u32, timeout_sec: i64, timeout_nsec: i64 },
    /// `futex` on the lock word, without timeout.
    Futex { op: i32, val: u32 },
}

/// One request to the kernel.
#[derive(Debug)]
pub struct Syscall {
    pub op: Op,
    /// The bytes that the kernel reads through a pointer argument; empty
    /// where the call has none.
    pub data: Vec<u8>,
}

impl Syscall {
    /// A call that hands the kernel no bytes.
    pub fn plain(op: Op) -> (c: Self)
        ensures
            c.op == op,
            c.data@ == Seq::<u8>::empty(),
    {
        Syscall { op, data: Vec::new() }
    }

    /// A call that hands the kernel `data`.
    pub fn with_data(op: Op, data: Vec<u8>) -> (c: Self)
        ensures
            c.op == op,
            c.data@ == data@,
    {
        Syscall { op, data }
    }
}

} // verus!
