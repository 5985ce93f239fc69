//! Constants and plain data types of the kernel interface.

use vstd::prelude::*;

verus! {

/// Seek relative to the beginning of the file.
pub const SEEK_SET: i32 = 0;

/// Seek relative to the current file position.
pub const SEEK_CUR: i32 = 1;

/// Seek relative to the end of the file.
pub const SEEK_END: i32 = 2;

/// Seek to the next data.
pub const SEEK_DATA: i32 = 3;

/// Seek to the next hole.
pub const SEEK_HOLE: i32 = 4;

pub const O_ACCMODE: i32 = 0o00000003;
pub const O_RDONLY: i32 = 0o00000000;
pub const O_WRONLY: i32 = 0o00000001;
pub const O_RDWR: i32 = 0o00000002;
pub const O_CREAT: i32 = 0o00000100;
pub const O_EXCL: i32 = 0o00000200;
pub const O_NOCTTY: i32 = 0o00000400;
pub const O_TRUNC: i32 = 0o00001000;
pub const O_APPEND: i32 = 0o00002000;
pub const O_NONBLOCK: i32 = 0o00004000;
pub const O_DSYNC: i32 = 0o00010000;
pub const O_DIRECT: i32 = 0o00040000;
pub const O_LARGEFILE: i32 = 0o00100000;
pub const O_DIRECTORY: i32 = 0o00200000;
pub const O_NOFOLLOW: i32 = 0o00400000;
pub const O_NOATIME: i32 = 0o01000000;
pub const O_CLOEXEC: i32 = 0o02000000;
/// `0o04000000` together with [`O_DSYNC`].
pub const O_SYNC: i32 = 0o04010000;
pub const O_PATH: i32 = 0o010000000;
/// `0o020000000` together with [`O_DIRECTORY`].
pub const O_TMPFILE: i32 = 0o020200000;
/// `0o020000000` together with [`O_DIRECTORY`] and [`O_CREAT`].
pub const O_TMPFILE_MASK: i32 = 0o020200100;
pub const O_NDELAY: i32 = O_NONBLOCK;

pub const AT_FDCWD: i32 = -100;
pub const AT_EMPTY_PATH: i32 = 0x1000;

pub const PROT_READ: i32 = 0x1;
pub const PROT_WRITE: i32 = 0x2;
pub const MAP_SHARED: i32 = 0x01;
pub const MAP_ANONYMOUS: i32 = 0x20;

pub const POLLIN: i16 = 0x0001;
pub const POLLPRI: i16 = 0x0002;
pub const POLLOUT: i16 = 0x0004;
pub const POLLERR: i16 = 0x0008;
pub const POLLHUP: i16 = 0x0010;
pub const POLLNVAL: i16 = 0x0020;

pub const DT_UNKNOWN: u8 = 0;
pub const DT_FIFO: u8 = 1;
pub const DT_CHR: u8 = 2;
pub const DT_DIR: u8 = 4;
pub const DT_BLK: u8 = 6;
pub const DT_REG: u8 = 8;
pub const DT_LNK: u8 = 10;
pub const DT_SOCK: u8 = 12;
pub const DT_WHT: u8 = 14;

pub const FUTEX_WAIT: i32 = 0;
pub const FUTEX_WAKE: i32 = 1;
pub const FUTEX_FD: i32 = 2;
pub const FUTEX_REQUEUE: i32 = 3;
pub const FUTEX_CMP_REQUEUE: i32 = 4;
pub const FUTEX_WAKE_OP: i32 = 5;
pub const FUTEX_LOCK_PI: i32 = 6;
pub const FUTEX_UNLOCK_PI: i32 = 7;
pub const FUTEX_TRYLOCK_PI: i32 = 8;
pub const FUTEX_WAIT_BITSET: i32 = 9;
pub const FUTEX_PRIVATE: i32 = 128;
pub const FUTEX_CLOCK_REALTIME: i32 = 256;

/// The socket communication model types.
#[allow(non_camel_case_types)]
#[derive(Clone, Copy, Debug, PartialEq, Eq, Structural)]
pub enum sock_type {
    SOCK_STREAM,
    SOCK_DGRAM,
    SOCK_RAW,
    SOCK_RDM,
    SOCK_SEQPACKET,
    SOCK_DCCP,
    SOCK_PACKET,
}

impl sock_type {
    /// The number by which the kernel knows this socket type.
    pub open spec fn spec_raw(self) -> i32 {
        match self {
            sock_type::SOCK_STREAM => 1,
            sock_type::SOCK_DGRAM => 2,
            sock_type::SOCK_RAW => 3,
            sock_type::SOCK_RDM => 4,
            sock_type::SOCK_SEQPACKET => 5,
            sock_type::SOCK_DCCP => 6,
            sock_type::SOCK_PACKET => 10,
        }
    }

    pub fn raw(self) -> (n: i32)
        ensures
            n == self.spec_raw(),
    {
        match self {
            sock_type::SOCK_STREAM => 1,
            sock_type::SOCK_DGRAM => 2,
            sock_type::SOCK_RAW => 3,
            sock_type::SOCK_RDM => 4,
            sock_type::SOCK_SEQPACKET => 5,
            sock_type::SOCK_DCCP => 6,
            sock_type::SOCK_PACKET => 10,
        }
    }
}

/// A file descriptor request object for use with `ppoll`.
#[allow(non_camel_case_types)]
#[derive(Clone, Copy, Debug, PartialEq, Eq, Structural)]
pub struct pollfd {
    pub fd: i32,
    pub events: i16,
    pub revents: i16,
}

/// A type used with some `fcntl` commands.
#[allow(non_camel_case_types)]
#[derive(Clone, Copy, Debug, PartialEq, Eq, Structural)]
pub struct flock {
    pub l_type: i16,
    pub l_whence: i16,
    pub l_start: i64,
    pub l_len: i64,
    pub l_pid: i32,
}

/// Representation of time as separate seconds and nanoseconds.
#[allow(non_camel_case_types)]
#[derive(Clone, Copy, Debug, PartialEq, Eq, Structural)]
pub struct timespec {
    pub tv_sec: i64,
    pub tv_nsec: i64,
}

/// Representation of time as separate seconds and microseconds.
#[allow(non_camel_case_types)]
#[derive(Clone, Copy, Debug, PartialEq, Eq, Structural)]
pub struct timeval {
    pub tv_sec: i64,
    pub tv_usec: i64,
}

/// Used with `io_uring_setup`.
#[allow(non_camel_case_types)]
#[derive(Clone, Copy, Debug)]
pub struct io_uring_params {
    pub sq_entries: u32,
    pub cq_entries: u32,
    pub flags: u32,
    pub sq_thread_cpu: u32,
    pub sq_thread_idle: u32,
    pub features: u32,
    pub wq_fd: u32,
    pub resv: [u32; 3],
    pub sq_off: io_sqring_offsets,
    pub cq_off: io_cqring_offsets,
}

/// Used with [`io_uring_params`].
#[allow(non_camel_case_types)]
#[derive(Clone, Copy, Debug)]
pub struct io_sqring_offsets {
    pub head: u32,
    pub tail: u32,
    pub ring_mask: u32,
    pub ring_entries: u32,
    pub flags: u32,
    pub dropped: u32,
    pub array: u32,
    pub resv: [u32; 3],
}

/// Used with [`io_uring_params`].
#[allow(non_camel_case_types)]
#[derive(Clone, Copy, Debug)]
pub struct io_cqring_offsets {
    pub head: u32,
    pub tail: u32,
    pub ring_mask: u32,
    pub ring_entries: u32,
    pub overflow: u32,
    pub cqes: u32,
    pub flags: u32,
    pub resv: [u32; 3],
}

} // verus!
