//! File handles.

use vstd::prelude::*;
use vstd::slice::slice_subrange;
use core::marker::PhantomData;
use crate::io::direntry::{AllDirEntries, DirEntries};
use crate::io::fcntl::FcntlCmd;
use crate::io::ioctl::{FromIoctlResult, IoDevice, IoctlReq, SubDevice};
use crate::io::result::{check, spec_check, Error};
use crate::io::seek::SeekFrom;
use crate::io::socket::{SockAddr, SocketProtocol};
use crate::io::sockopt::{GetSockOpt, SetSockOpt};
use crate::sys::call::{Op, Syscall};
use crate::sys::layout::{spec_bits64, Layout};
use crate::sys::result::{is_error_word, prepare_standard_result, EINVAL, ENOENT};
use crate::sys::types::{sock_type, AT_FDCWD, O_CREAT, O_TRUNC, O_WRONLY};

verus! {

/// An encapsulated Linux file descriptor.
///
/// A `File` is the number of an open descriptor together with the type of
/// device it stands for. It makes no system call of its own: its methods
/// say which call to make and what the kernel's answer means.
#[derive(Debug)]
pub struct File<Device = ()> {
    pub(crate) fd: i32,
    _phantom: PhantomData<Device>,
}

impl<Device> File<Device> {
    /// The descriptor number that the handle wraps.
    pub closed spec fn spec_fd(&self) -> i32 {
        self.fd
    }

    /// Wraps an existing raw file descriptor.
    pub fn from_fd(fd: i32) -> (f: Self)
        ensures
            f == spec_file_of::<Device>(fd),
            f.spec_fd() == fd,
    {
        File { fd, _phantom: PhantomData }
    }

    #[verifier::when_used_as_spec(spec_fd)]
    pub fn fd(&self) -> (fd: i32)
        ensures
            fd == self.spec_fd(),
    {
        self.fd
    }

    /// Consumes the handle and returns the underlying file descriptor,
    /// which stays open.
    pub fn into_raw_fd(self) -> (fd: i32)
        ensures
            fd == self.spec_fd(),
    {
        self.fd
    }

    /// Marks the handle as one of a device of type `T`, so that it accepts
    /// the `ioctl` requests defined for that device.
    pub fn to_device<T: IoDevice>(self, devty: T) -> (f: File<T>)
        ensures
            f.spec_fd() == self.spec_fd(),
    {
        File { fd: self.fd, _phantom: PhantomData }
    }

    /// The `close` call that gives the descriptor up.
    pub fn close_call(&self) -> (c: Syscall)
        ensures
            c.op == (Op::Close { fd: self.spec_fd() }),
            c.data@ == Seq::<u8>::empty(),
    {
        Syscall::plain(Op::Close { fd: self.fd })
    }

    /// What the kernel's answer to [`Self::close_call`] means. The handle
    /// is consumed either way: after a failed `close` the descriptor cannot
    /// be recovered.
    pub fn close(self, raw: u64) -> (r: Result<(), Error>)
        ensures
            r == spec_unit_result(raw),
    {
        match check(raw) {
            Ok(_) => Ok(()),
            Err(e) => Err(e),
        }
    }
}

/// The result of a call of which only success or failure matters.
pub open spec fn spec_unit_result(raw: u64) -> Result<(), Error> {
    match spec_check(raw) {
        Ok(_) => Ok(()),
        Err(e) => Err(e),
    }
}

/// What the kernel's answer to an `ioctl` request means: the request's own
/// reading of the returned integer and of the bytes the kernel wrote, or
/// the kernel's error code.
pub open spec fn spec_ioctl<ReqDevice: IoDevice, Req: IoctlReq<ReqDevice>>(
    request: &Req,
    arg: &Req::ExtArg,
    raw: u64,
    temp_mem: Seq<u8>,
) -> Result<Req::Result, Error> {
    match spec_check(raw) {
        Ok(v) => Ok(request.spec_result(spec_low32(v), arg, temp_mem)),
        Err(e) => Err(e),
    }
}

/// What the kernel's answer to a call that returns an integer means: the
/// low 32 bits of the word as a signed number, or the kernel's error code.
pub open spec fn spec_int_result(raw: u64) -> Result<i32, Error> {
    match spec_check(raw) {
        Ok(v) => Ok(spec_low32(v)),
        Err(e) => Err(e),
    }
}

/// The low 32 bits of a word, read as a signed number.
pub open spec fn spec_low32(v: u64) -> i32 {
    if v % 0x1_0000_0000 >= 0x8000_0000 {
        (v % 0x1_0000_0000 - 0x1_0000_0000) as i32
    } else {
        (v % 0x1_0000_0000) as i32
    }
}

/// What the kernel's answer to `mmap` means: the address of the mapping,
/// or the kernel's error code.
pub open spec fn spec_mmap_result(raw: u64) -> Result<usize, Error> {
    match spec_check(raw) {
        Ok(v) => Ok(v as usize),
        Err(e) => Err(e),
    }
}

/// Reads the kernel's answer to `mmap`.
pub fn mmap_result(raw: u64) -> (r: Result<usize, Error>)
    ensures
        r == spec_mmap_result(raw),
{
    match check(raw) {
        Ok(v) => Ok(
            #[verifier::truncate]
            (v as usize),
        ),
        Err(e) => Err(e),
    }
}

impl<Device> File<Device> {
    /// The `mmap` call that maps the file into memory.
    pub fn mmap_raw_call(
        &self,
        offset: i64,
        length: usize,
        addr: usize,
        prot: i32,
        flags: i32,
    ) -> (c: Syscall)
        ensures
            c.op == (Op::Mmap { addr, length, prot, flags, fd: self.spec_fd(), offset }),
            c.data@ == Seq::<u8>::empty(),
    {
        Syscall::plain(Op::Mmap { addr, length, prot, flags, fd: self.fd, offset })
    }

    /// What the kernel's answer to [`Self::mmap_raw_call`] means.
    pub fn mmap_raw(&self, raw: u64) -> (r: Result<usize, Error>)
        ensures
            r == spec_mmap_result(raw),
    {
        mmap_result(raw)
    }
}

impl<Device: IoDevice> File<Device> {
    /// The `ioctl` call for `request` with argument `arg`.
    pub fn ioctl_call<ReqDevice: IoDevice, Req: IoctlReq<ReqDevice>>(
        &self,
        request: &Req,
        arg: &Req::ExtArg,
    ) -> (c: Syscall) where Device: SubDevice<ReqDevice>
        ensures
            c.op == (Op::Ioctl {
                fd: self.spec_fd(),
                request: request.spec_request(),
                arg: request.spec_arg(arg),
            }),
            c.data@ == request.spec_data(arg),
    {
        let (raw_req, raw_arg, data) = request.prepare_ioctl_args(arg);
        Syscall::with_data(Op::Ioctl { fd: self.fd, request: raw_req, arg: raw_arg }, data)
    }

    /// What the kernel's answer to [`Self::ioctl_call`] means. `temp_mem`
    /// holds the bytes the kernel wrote through the argument pointer; it is
    /// empty where the request passes none.
    pub fn ioctl<ReqDevice: IoDevice, Req: IoctlReq<ReqDevice>>(
        &self,
        request: &Req,
        arg: &Req::ExtArg,
        raw: u64,
        temp_mem: &[u8],
    ) -> (r: Result<Req::Result, Error>) where Device: SubDevice<ReqDevice>
        ensures
            r == spec_ioctl::<ReqDevice, Req>(request, arg, raw, temp_mem@),
    {
        match prepare_standard_result::<i32>(raw) {
            Ok(v) => Ok(request.prepare_ioctl_result(v, arg, temp_mem)),
            Err(e) => Err(Error(e.0)),
        }
    }
}

/// The handle that wraps descriptor `fd`.
pub closed spec fn spec_file_of<Device>(fd: i32) -> File<Device> {
    File { fd, _phantom: PhantomData }
}

/// The handle that wraps a descriptor wraps that descriptor.
pub proof fn lemma_file_of<Device>(fd: i32)
    ensures
        spec_file_of::<Device>(fd).spec_fd() == fd,
{
}

impl<Device: IoDevice> FromIoctlResult<i32> for File<Device> {
    /// The handle that wraps the returned integer as its descriptor.
    open spec fn spec_from_ioctl_result(raw: &i32) -> Self {
        spec_file_of::<Device>(*raw)
    }

    fn from_ioctl_result(raw: &i32) -> (r: Self) {
        File::from_fd(*raw)
    }
}

/// A path as the kernel reads it: bytes that end in a zero byte and hold no
/// other.
pub struct CPath {
    bytes: Vec<u8>,
}

/// Whether `bytes` end in a zero byte and hold no other.
pub open spec fn is_c_string(bytes: Seq<u8>) -> bool {
    &&& bytes.len() > 0
    &&& bytes[bytes.len() - 1] == 0
    &&& forall|i: int| 0 <= i < bytes.len() - 1 ==> bytes[i] != 0
}

impl View for CPath {
    type V = Seq<u8>;

    closed spec fn view(&self) -> Seq<u8> {
        self.bytes@
    }
}

impl CPath {
    #[verifier::type_invariant]
    spec fn well_formed(&self) -> bool {
        is_c_string(self.bytes@)
    }

    /// Accepts `bytes` as a path if and only if they end in a zero byte and
    /// hold no other.
    pub fn from_bytes_with_nul(bytes: Vec<u8>) -> (r: Option<CPath>)
        ensures
            r is Some <==> is_c_string(bytes@),
            r is Some ==> r->Some_0@ == bytes@,
    {
        let n: usize = bytes.len();
        if n == 0 {
            return None;
        }
        if bytes[n - 1] != 0 {
            return None;
        }
        let mut i: usize = 0;
        while i < n - 1
            invariant
                n == bytes.len(),
                n > 0,
                i <= n - 1,
                forall|j: int| 0 <= j < i ==> bytes[j] != 0,
            decreases n - i,
        {
            if bytes[i] == 0 {
                return None;
            }
            i += 1;
        }
        Some(CPath { bytes })
    }

    /// The bytes of the path, the terminating zero byte included.
    pub fn as_bytes(&self) -> (b: &Vec<u8>)
        ensures
            b@ == self@,
            is_c_string(b@),
    {
        proof {
            use_type_invariant(self);
        }
        &self.bytes
    }

    /// A copy of the bytes of the path.
    pub fn to_bytes(&self) -> (b: Vec<u8>)
        ensures
            b@ == self@,
            is_c_string(b@),
    {
        proof {
            use_type_invariant(self);
        }
        let mut out: Vec<u8> = Vec::new();
        let mut i: usize = 0;
        while i < self.bytes.len()
            invariant
                i <= self.bytes.len(),
                out@ == self.bytes@.subrange(0, i as int),
            decreases self.bytes.len() - i,
        {
            out.push(self.bytes[i]);
            i += 1;
            assert(out@ =~= self.bytes@.subrange(0, i as int));
        }
        assert(out@ =~= self.bytes@);
        out
    }
}

/// A marker for options that need a `mode` argument when the file is
/// opened. It is only ever used as a type.
pub enum OpenWithMode {
    Marker,
}

/// A marker for options that need no `mode` argument when the file is
/// opened. It is only ever used as a type.
pub enum OpenWithoutMode {
    Marker,
}

/// Says whether a set of options must be opened with a `mode` argument.
pub trait OpenMode {

}

impl OpenMode for OpenWithMode {

}

impl OpenMode for OpenWithoutMode {

}

/// The options for the `open` system call behind a builder API.
///
/// Start from [`OpenOptions::read_only`], [`OpenOptions::write_only`] or
/// [`OpenOptions::read_write`] and refine with the other methods, each of
/// which sets its flag bits and leaves the others as they were.
pub struct OpenOptions<NeedMode: OpenMode> {
    flags: i32,
    _phantom: PhantomData<NeedMode>,
}

impl<NeedMode: OpenMode> View for OpenOptions<NeedMode> {
    type V = i32;

    /// The raw flags value.
    closed spec fn view(&self) -> i32 {
        self.flags
    }
}

impl OpenOptions<OpenWithoutMode> {
    pub fn read_only() -> (o: Self)
        ensures
            o@ == crate::sys::types::O_RDONLY,
    {
        OpenOptions { flags: crate::sys::types::O_RDONLY, _phantom: PhantomData }
    }

    pub fn write_only() -> (o: Self)
        ensures
            o@ == O_WRONLY,
    {
        OpenOptions { flags: O_WRONLY, _phantom: PhantomData }
    }

    pub fn read_write() -> (o: Self)
        ensures
            o@ == crate::sys::types::O_RDWR,
    {
        OpenOptions { flags: crate::sys::types::O_RDWR, _phantom: PhantomData }
    }
}

impl<NeedMode: OpenMode> OpenOptions<NeedMode> {
    /// Sets the bits of `new` in the flags.
    pub fn bit_or(self, new: i32) -> (o: Self)
        ensures
            o@ == self@ | new,
    {
        OpenOptions { flags: self.flags | new, _phantom: PhantomData }
    }

    pub fn append(self) -> (o: Self)
        ensures
            o@ == self@ | crate::sys::types::O_APPEND,
    {
        self.bit_or(crate::sys::types::O_APPEND)
    }

    pub fn close_on_exec(self) -> (o: Self)
        ensures
            o@ == self@ | crate::sys::types::O_CLOEXEC,
    {
        self.bit_or(crate::sys::types::O_CLOEXEC)
    }

    pub fn create(self) -> (o: OpenOptions<OpenWithMode>)
        ensures
            o@ == self@ | O_CREAT,
    {
        OpenOptions { flags: self.bit_or(O_CREAT).flags, _phantom: PhantomData }
    }

    pub fn direct(self) -> (o: Self)
        ensures
            o@ == self@ | crate::sys::types::O_DIRECT,
    {
        self.bit_or(crate::sys::types::O_DIRECT)
    }

    pub fn directory(self) -> (o: Self)
        ensures
            o@ == self@ | crate::sys::types::O_DIRECTORY,
    {
        self.bit_or(crate::sys::types::O_DIRECTORY)
    }

    pub fn excl(self) -> (o: Self)
        ensures
            o@ == self@ | crate::sys::types::O_EXCL,
    {
        self.bit_or(crate::sys::types::O_EXCL)
    }

    pub fn no_atime(self) -> (o: Self)
        ensures
            o@ == self@ | crate::sys::types::O_NOATIME,
    {
        self.bit_or(crate::sys::types::O_NOATIME)
    }

    pub fn no_controlling_tty(self) -> (o: Self)
        ensures
            o@ == self@ | crate::sys::types::O_NOCTTY,
    {
        self.bit_or(crate::sys::types::O_NOCTTY)
    }

    pub fn no_follow_symlinks(self) -> (o: Self)
        ensures
            o@ == self@ | crate::sys::types::O_NOFOLLOW,
    {
        self.bit_or(crate::sys::types::O_NOFOLLOW)
    }

    pub fn nonblocking(self) -> (o: Self)
        ensures
            o@ == self@ | crate::sys::types::O_NONBLOCK,
    {
        self.bit_or(crate::sys::types::O_NONBLOCK)
    }

    pub fn path_only(self) -> (o: Self)
        ensures
            o@ == self@ | crate::sys::types::O_PATH,
    {
        self.bit_or(crate::sys::types::O_PATH)
    }

    pub fn sync(self) -> (o: Self)
        ensures
            o@ == self@ | crate::sys::types::O_SYNC,
    {
        self.bit_or(crate::sys::types::O_SYNC)
    }

    pub fn temp_file(self) -> (o: OpenOptions<OpenWithMode>)
        ensures
            o@ == self@ | crate::sys::types::O_TMPFILE,
    {
        OpenOptions { flags: self.bit_or(crate::sys::types::O_TMPFILE).flags, _phantom: PhantomData }
    }

    pub fn truncate(self) -> (o: Self)
        ensures
            o@ == self@ | O_TRUNC,
    {
        self.bit_or(O_TRUNC)
    }

    /// The raw flags value to use with the `open` system call.
    pub fn into_raw_flags(self) -> (flags: i32)
        ensures
            flags == self@,
    {
        self.flags
    }
}

/// Each option sets exactly its own bits: a flag already set stays set,
/// setting an option twice is setting it once, and the order in which
/// options are set does not matter.
pub proof fn lemma_flag_bits(flags: i32, a: i32, b: i32)
    ensures
        (flags | a) & a == a,
        (flags | a) | a == flags | a,
        (flags | a) | b == (flags | b) | a,
        (flags | a) & flags == flags,
{
    assert((flags | a) & a == a && (flags | a) | a == flags | a && (flags | a) | b == (flags | b)
        | a && (flags | a) & flags == flags) by (bit_vector);
}

impl File<()> {
    /// The `openat` call that opens an existing file.
    pub fn open_call(path: &CPath, options: OpenOptions<OpenWithoutMode>) -> (c: Syscall)
        ensures
            c.op == (Op::Openat { dirfd: AT_FDCWD, flags: options@, mode: 0 }),
            c.data@ == path@,
    {
        Self::open_raw_call(path, options.into_raw_flags(), 0)
    }

    /// The `openat` call that opens a file, creating it if necessary with
    /// the given file mode.
    pub fn open_with_mode_call(path: &CPath, options: OpenOptions<OpenWithMode>, mode: u32) -> (c:
        Syscall)
        ensures
            c.op == (Op::Openat { dirfd: AT_FDCWD, flags: options@, mode }),
            c.data@ == path@,
    {
        Self::open_raw_call(path, options.into_raw_flags(), mode)
    }

    /// The `openat` call with raw `flags` and `mode`, relative to the
    /// current directory.
    pub fn open_raw_call(path: &CPath, flags: i32, mode: u32) -> (c: Syscall)
        ensures
            c.op == (Op::Openat { dirfd: AT_FDCWD, flags, mode }),
            c.data@ == path@,
    {
        Syscall::with_data(Op::Openat { dirfd: AT_FDCWD, flags, mode }, path.to_bytes())
    }

    /// The `openat` call that creates a new file for writing, truncating
    /// one that exists.
    pub fn create_raw_call(path: &CPath, mode: u32) -> (c: Syscall)
        ensures
            c.op == (Op::Openat { dirfd: AT_FDCWD, flags: O_CREAT | O_WRONLY | O_TRUNC, mode }),
            c.data@ == path@,
    {
        Syscall::with_data(
            Op::Openat { dirfd: AT_FDCWD, flags: O_CREAT | O_WRONLY | O_TRUNC, mode },
            path.to_bytes(),
        )
    }

    /// What the kernel's answer to [`Self::open_call`] means.
    pub fn open(raw: u64) -> (r: Result<Self, Error>)
        ensures
            same_fd(r, spec_int_result(raw)),
    {
        Self::open_raw(raw)
    }

    /// What the kernel's answer to [`Self::open_with_mode_call`] means.
    pub fn open_with_mode(raw: u64) -> (r: Result<Self, Error>)
        ensures
            same_fd(r, spec_int_result(raw)),
    {
        Self::open_raw(raw)
    }

    /// What the kernel's answer to [`Self::open_raw_call`] means: a handle
    /// on the new descriptor, or the kernel's error code.
    pub fn open_raw(raw: u64) -> (r: Result<Self, Error>)
        ensures
            same_fd(r, spec_int_result(raw)),
    {
        fd_result(raw)
    }

    /// What the kernel's answer to [`Self::create_raw_call`] means.
    pub fn create_raw(raw: u64) -> (r: Result<Self, Error>)
        ensures
            same_fd(r, spec_int_result(raw)),
    {
        fd_result(raw)
    }
}

/// Whether `r` is the handle on the descriptor that `expected` names, or
/// the same error.
pub open spec fn same_fd<Device>(r: Result<File<Device>, Error>, expected: Result<i32, Error>) -> bool {
    match expected {
        Ok(fd) => r is Ok && r->Ok_0.spec_fd() == fd,
        Err(e) => r is Err && r->Err_0 == e,
    }
}

/// Reads the kernel's answer to a call that returns a new descriptor.
pub fn fd_result<Device>(raw: u64) -> (r: Result<File<Device>, Error>)
    ensures
        same_fd(r, spec_int_result(raw)),
{
    match prepare_standard_result::<i32>(raw) {
        Ok(fd) => Ok(File::from_fd(fd)),
        Err(e) => Err(Error(e.0)),
    }
}

/// What the kernel's answer to a call that returns a size means: the
/// word as a size, or the kernel's error code.
pub open spec fn spec_size_result(raw: u64) -> Result<usize, Error> {
    match spec_check(raw) {
        Ok(v) => Ok(v as usize),
        Err(e) => Err(e),
    }
}

/// Reads the kernel's answer to a call that returns a size.
pub fn size_result(raw: u64) -> (r: Result<usize, Error>)
    ensures
        r == spec_size_result(raw),
{
    match check(raw) {
        Ok(v) => Ok(
            #[verifier::truncate]
            (v as usize),
        ),
        Err(e) => Err(e),
    }
}

/// Reads the kernel's answer to a call of which only success or failure
/// matters.
pub fn unit_result(raw: u64) -> (r: Result<(), Error>)
    ensures
        r == spec_unit_result(raw),
{
    match check(raw) {
        Ok(_) => Ok(()),
        Err(e) => Err(e),
    }
}

/// What the kernel's answer to the existence query means: the path exists
/// where the query succeeds, does not exist where the kernel reports "no
/// such file or directory", and any other error is handed on.
pub open spec fn spec_exists_result(raw: u64) -> Result<bool, Error> {
    match spec_check(raw) {
        Ok(_) => Ok(true),
        Err(e) => if e.0 == ENOENT {
            Ok(false)
        } else {
            Err(e)
        },
    }
}

/// The largest buffer length that the kernel takes as a signed 32-bit
/// count.
pub const MAX_COUNT: usize = 0x7fff_ffff;

impl File<()> {
    /// The `socket` call that creates a new socket of the given protocol.
    pub fn socket_call<Protocol: SocketProtocol>(domain: u16, typ: sock_type, protocol: &Protocol) -> (c:
        Syscall)
        ensures
            c.op == (Op::Socket {
                domain,
                typ: typ.spec_raw(),
                protocol: protocol.spec_raw_protocol_num(),
            }),
            c.data@ == Seq::<u8>::empty(),
    {
        Syscall::plain(
            Op::Socket { domain, typ: typ.raw(), protocol: protocol.raw_protocol_num() },
        )
    }

    /// What the kernel's answer to [`Self::socket_call`] means: a handle of
    /// the device type that the protocol names.
    pub fn socket<Protocol: SocketProtocol>(raw: u64) -> (r: Result<File<Protocol::Device>, Error>)
        ensures
            same_fd(r, spec_int_result(raw)),
    {
        fd_result(raw)
    }

    /// The `socket` call with a raw protocol number.
    pub fn socket_raw_call(domain: u16, typ: sock_type, protocol: i32) -> (c: Syscall)
        ensures
            c.op == (Op::Socket { domain, typ: typ.spec_raw(), protocol }),
            c.data@ == Seq::<u8>::empty(),
    {
        Syscall::plain(Op::Socket { domain, typ: typ.raw(), protocol })
    }

    /// What the kernel's answer to [`Self::socket_raw_call`] means: a
    /// handle typed only as a generic socket.
    pub fn socket_raw(raw: u64) -> (r: Result<File<crate::io::socket::SocketDevice>, Error>)
        ensures
            same_fd(r, spec_int_result(raw)),
    {
        fd_result(raw)
    }
}

impl<Device> File<Device> {
    /// The `dup` call that creates a new descriptor for the same file
    /// description.
    pub fn duplicate_call(&self) -> (c: Syscall)
        ensures
            c.op == (Op::Dup { fd: self.spec_fd() }),
            c.data@ == Seq::<u8>::empty(),
    {
        Syscall::plain(Op::Dup { fd: self.fd })
    }

    /// What the kernel's answer to [`Self::duplicate_call`] means.
    pub fn duplicate(&self, raw: u64) -> (r: Result<Self, Error>)
        ensures
            same_fd(r, spec_int_result(raw)),
    {
        fd_result(raw)
    }

    /// The `openat` call that opens a file relative to this one, which
    /// must represent a directory.
    pub fn open_relative_call(&self, path: &CPath, options: OpenOptions<OpenWithoutMode>) -> (c:
        Syscall)
        ensures
            c.op == (Op::Openat { dirfd: self.spec_fd(), flags: options@, mode: 0 }),
            c.data@ == path@,
    {
        self.open_relative_raw_call(path, options.into_raw_flags(), 0)
    }

    /// The `openat` call that opens a file relative to this one, creating
    /// it if necessary with the given file mode.
    pub fn open_relative_with_mode_call(
        &self,
        path: &CPath,
        options: OpenOptions<OpenWithMode>,
        mode: u32,
    ) -> (c: Syscall)
        ensures
            c.op == (Op::Openat { dirfd: self.spec_fd(), flags: options@, mode }),
            c.data@ == path@,
    {
        self.open_relative_raw_call(path, options.into_raw_flags(), mode)
    }

    /// The `openat` call with raw `flags` and `mode`, relative to this
    /// file.
    pub fn open_relative_raw_call(&self, path: &CPath, flags: i32, mode: u32) -> (c: Syscall)
        ensures
            c.op == (Op::Openat { dirfd: self.spec_fd(), flags, mode }),
            c.data@ == path@,
    {
        Syscall::with_data(Op::Openat { dirfd: self.fd, flags, mode }, path.to_bytes())
    }

    /// What the kernel's answer to [`Self::open_relative_call`] means.
    pub fn open_relative(&self, raw: u64) -> (r: Result<File<()>, Error>)
        ensures
            same_fd(r, spec_int_result(raw)),
    {
        fd_result(raw)
    }

    /// What the kernel's answer to [`Self::open_relative_with_mode_call`]
    /// means.
    pub fn open_relative_with_mode(&self, raw: u64) -> (r: Result<File<()>, Error>)
        ensures
            same_fd(r, spec_int_result(raw)),
    {
        fd_result(raw)
    }

    /// What the kernel's answer to [`Self::open_relative_raw_call`] means.
    pub fn open_relative_raw(&self, raw: u64) -> (r: Result<File<()>, Error>)
        ensures
            same_fd(r, spec_int_result(raw)),
    {
        fd_result(raw)
    }

    /// The `read` call that reads up to `count` bytes from the file.
    pub fn read_call(&self, count: usize) -> (c: Syscall)
        ensures
            c.op == (Op::Read { fd: self.spec_fd(), count }),
            c.data@ == Seq::<u8>::empty(),
    {
        Syscall::plain(Op::Read { fd: self.fd, count })
    }

    /// What the kernel's answer to [`Self::read_call`] means: the number
    /// of bytes that were read.
    pub fn read(&self, raw: u64) -> (r: Result<usize, Error>)
        ensures
            r == spec_size_result(raw),
    {
        size_result(raw)
    }

    /// The `write` call that writes the bytes of `buf` to the file.
    pub fn write_call(&self, buf: &[u8]) -> (c: Syscall)
        ensures
            c.op == (Op::Write { fd: self.spec_fd() }),
            c.data@ == buf@,
    {
        let mut data: Vec<u8> = Vec::new();
        let mut i: usize = 0;
        while i < buf.len()
            invariant
                i <= buf.len(),
                data@ == buf@.subrange(0, i as int),
            decreases buf.len() - i,
        {
            data.push(buf[i]);
            i += 1;
            assert(data@ =~= buf@.subrange(0, i as int));
        }
        assert(buf@.subrange(0, i as int) =~= buf@);
        Syscall::with_data(Op::Write { fd: self.fd }, data)
    }

    /// What the kernel's answer to [`Self::write_call`] means: how many
    /// bytes were written.
    pub fn write(&self, raw: u64) -> (r: Result<usize, Error>)
        ensures
            r == spec_size_result(raw),
    {
        size_result(raw)
    }

    /// The `fsync` call that has the kernel flush its buffers and caches
    /// for the file.
    pub fn sync_call(&self) -> (c: Syscall)
        ensures
            c.op == (Op::Fsync { fd: self.spec_fd() }),
            c.data@ == Seq::<u8>::empty(),
    {
        Syscall::plain(Op::Fsync { fd: self.fd })
    }

    /// What the kernel's answer to [`Self::sync_call`] means.
    pub fn sync(&self, raw: u64) -> (r: Result<(), Error>)
        ensures
            r == spec_unit_result(raw),
    {
        unit_result(raw)
    }

    /// The `getdents64` call that reads directory entries into a buffer of
    /// `buf_len` bytes. A buffer longer than the kernel can count is
    /// refused with "invalid argument" and no call is made.
    pub fn getdents_call(&self, buf_len: usize) -> (r: Result<Syscall, Error>)
        ensures
            buf_len > MAX_COUNT ==> r == Err::<Syscall, Error>(Error(EINVAL)),
            buf_len <= MAX_COUNT ==> r is Ok && r->Ok_0.op == (Op::Getdents64 {
                fd: self.spec_fd(),
                count: buf_len as i32,
            }) && r->Ok_0.data@ == Seq::<u8>::empty(),
    {
        if buf_len > MAX_COUNT {
            return Err(Error::new(EINVAL));
        }
        Ok(Syscall::plain(Op::Getdents64 { fd: self.fd, count: buf_len as i32 }))
    }

    /// What the kernel's answer to [`Self::getdents_call`] means, with
    /// `buf` the buffer that the kernel filled: an iterator over the
    /// entries in the bytes the kernel wrote. The kernel never writes more
    /// than the buffer holds.
    pub fn getdents<'a>(&self, raw: u64, buf: &'a [u8]) -> (r: Result<DirEntries<'a>, Error>)
        requires
            !is_error_word(raw) ==> raw <= buf@.len(),
        ensures
            match spec_check(raw) {
                Ok(n) => r is Ok && r->Ok_0@ == buf@.subrange(0, n as int),
                Err(e) => r is Err && r->Err_0 == e,
            },
    {
        let buf_size: usize = buf.len();
        match check(raw) {
            Ok(n) => {
                let populated_size: usize = n as usize;
                Ok(DirEntries::from_getdents64_buffer(slice_subrange(buf, 0, populated_size)))
            },
            Err(e) => Err(e),
        }
    }

    /// Starts a walk over every entry of the directory, which has the
    /// kernel fill a buffer of `buf_len` bytes as often as it takes.
    pub fn getdents_all(&self, buf_len: usize) -> (a: AllDirEntries)
        ensures
            a.spec_fd() == Some(self.spec_fd()),
            a.spec_buf_len() == buf_len,
            a.spec_range() == (crate::io::direntry::Range { start: 0, end: 0 }),
    {
        AllDirEntries::new(self.fd, buf_len)
    }

    /// The `readlinkat` call that reads the content of the symbolic link
    /// that the file refers to, into a buffer of `buf_len` bytes. The path
    /// is empty. A buffer longer than the kernel can count is refused with
    /// "invalid argument" and no call is made.
    pub fn readlink_call(&self, buf_len: usize) -> (r: Result<Syscall, Error>)
        ensures
            buf_len > MAX_COUNT ==> r == Err::<Syscall, Error>(Error(EINVAL)),
            buf_len <= MAX_COUNT ==> r is Ok && r->Ok_0.op == (Op::Readlinkat {
                dirfd: self.spec_fd(),
                bufsiz: buf_len,
            }) && r->Ok_0.data@ == seq![0u8],
    {
        if buf_len > MAX_COUNT {
            return Err(Error::new(EINVAL));
        }
        let mut path: Vec<u8> = Vec::new();
        path.push(0);
        assert(path@ =~= seq![0u8]);
        Ok(Syscall::with_data(Op::Readlinkat { dirfd: self.fd, bufsiz: buf_len }, path))
    }

    /// The `readlinkat` call that reads the content of a symbolic link
    /// relative to the file, which must represent a directory.
    pub fn readlink_relative_call(&self, path: &CPath, buf_len: usize) -> (r: Result<
        Syscall,
        Error,
    >)
        ensures
            buf_len > MAX_COUNT ==> r == Err::<Syscall, Error>(Error(EINVAL)),
            buf_len <= MAX_COUNT ==> r is Ok && r->Ok_0.op == (Op::Readlinkat {
                dirfd: self.spec_fd(),
                bufsiz: buf_len,
            }) && r->Ok_0.data@ == path@,
    {
        if buf_len > MAX_COUNT {
            return Err(Error::new(EINVAL));
        }
        Ok(
            Syscall::with_data(
                Op::Readlinkat { dirfd: self.fd, bufsiz: buf_len },
                path.to_bytes(),
            ),
        )
    }

    /// What the kernel's answer to [`Self::readlink_call`] means, with
    /// `buf` the buffer that the kernel filled: the bytes the kernel wrote.
    /// The kernel never writes more than the buffer holds.
    pub fn readlink<'a>(&self, raw: u64, buf: &'a [u8]) -> (r: Result<&'a [u8], Error>)
        requires
            !is_error_word(raw) ==> raw <= buf@.len(),
        ensures
            match spec_check(raw) {
                Ok(n) => r is Ok && r->Ok_0@ == buf@.subrange(0, n as int),
                Err(e) => r is Err && r->Err_0 == e,
            },
    {
        let buf_size: usize = buf.len();
        match check(raw) {
            Ok(n) => Ok(slice_subrange(buf, 0, n as usize)),
            Err(e) => Err(e),
        }
    }

    /// What the kernel's answer to [`Self::readlink_relative_call`] means.
    pub fn readlink_relative<'a>(&self, raw: u64, buf: &'a [u8]) -> (r: Result<&'a [u8], Error>)
        requires
            !is_error_word(raw) ==> raw <= buf@.len(),
        ensures
            match spec_check(raw) {
                Ok(n) => r is Ok && r->Ok_0@ == buf@.subrange(0, n as int),
                Err(e) => r is Err && r->Err_0 == e,
            },
    {
        self.readlink(raw, buf)
    }

    /// The `statx` call that asks whether a path exists relative to the
    /// file, which must represent a directory.
    pub fn exists_relative_call(&self, path: &CPath) -> (c: Syscall)
        ensures
            c.op == (Op::Statx { dirfd: self.spec_fd(), flags: 0, mask: 0 }),
            c.data@ == path@,
    {
        Syscall::with_data(Op::Statx { dirfd: self.fd, flags: 0, mask: 0 }, path.to_bytes())
    }

    /// What the kernel's answer to [`Self::exists_relative_call`] means.
    pub fn exists_relative(&self, raw: u64) -> (r: Result<bool, Error>)
        ensures
            r == spec_exists_result(raw),
    {
        match check(raw) {
            Ok(_) => Ok(true),
            Err(e) => {
                if e.0 == ENOENT {
                    Ok(false)
                } else {
                    Err(e)
                }
            },
        }
    }

    /// The `lseek` call that changes the current read/write position of
    /// the file, for platforms whose `lseek` takes a 64-bit offset.
    pub fn seek_call(&self, pos: SeekFrom) -> (c: Syscall)
        ensures
            c.op == (Op::Lseek {
                fd: self.spec_fd(),
                offset: pos.spec_raw_offset(),
                whence: pos.spec_raw_whence(),
            }),
            c.data@ == Seq::<u8>::empty(),
    {
        let raw_offs = pos.for_raw_offset();
        let raw_whence = pos.for_raw_whence();
        Syscall::plain(Op::Lseek { fd: self.fd, offset: raw_offs, whence: raw_whence })
    }

    /// What the kernel's answer to [`Self::seek_call`] means: the new
    /// position.
    pub fn seek(&self, raw: u64) -> (r: Result<u64, Error>)
        ensures
            r == spec_check(raw),
    {
        check(raw)
    }

    /// The `_llseek` call that changes the current read/write position of
    /// the file, for platforms whose `lseek` takes a 32-bit offset: the
    /// offset goes in two halves.
    pub fn llseek_call(&self, pos: SeekFrom) -> (c: Syscall)
        ensures
            c.op == (Op::Llseek {
                fd: self.spec_fd(),
                offset_high: (pos.spec_offset_bits() / 0x1_0000_0000) as u32,
                offset_low: (pos.spec_offset_bits() % 0x1_0000_0000) as u32,
                whence: pos.spec_raw_whence() as u32,
            }),
            c.data@ == Seq::<u8>::empty(),
    {
        let (high, low) = pos.for_raw_halves();
        let raw_whence = pos.for_raw_uwhence();
        Syscall::plain(
            Op::Llseek { fd: self.fd, offset_high: high, offset_low: low, whence: raw_whence },
        )
    }

    /// What the kernel's answer to [`Self::llseek_call`] means, with the
    /// position that the kernel wrote in `result`: that position as an
    /// unsigned number.
    pub fn llseek(&self, raw: u64, result: i64) -> (r: Result<u64, Error>)
        ensures
            match spec_check(raw) {
                Ok(_) => r == Ok::<u64, Error>(spec_bits64(result)),
                Err(e) => r == Err::<u64, Error>(e),
            },
    {
        match check(raw) {
            Ok(_) => Ok(crate::sys::layout::bits64(result)),
            Err(e) => Err(e),
        }
    }

    /// The `bind` call that binds an address to a socket.
    pub fn bind_call<A: SockAddr>(&self, addr: &A) -> (c: Syscall)
        ensures
            c.op == (Op::Bind { fd: self.spec_fd() }),
            c.data@ == addr.spec_sockaddr(),
    {
        Syscall::with_data(Op::Bind { fd: self.fd }, addr.sockaddr_bytes())
    }

    /// What the kernel's answer to [`Self::bind_call`] means.
    pub fn bind(&self, raw: u64) -> (r: Result<(), Error>)
        ensures
            r == spec_unit_result(raw),
    {
        unit_result(raw)
    }

    /// The `connect` call that initiates a connection on a socket.
    pub fn connect_call<A: SockAddr>(&self, addr: &A) -> (c: Syscall)
        ensures
            c.op == (Op::Connect { fd: self.spec_fd() }),
            c.data@ == addr.spec_sockaddr(),
    {
        Syscall::with_data(Op::Connect { fd: self.fd }, addr.sockaddr_bytes())
    }

    /// What the kernel's answer to [`Self::connect_call`] means.
    pub fn connect(&self, raw: u64) -> (r: Result<(), Error>)
        ensures
            r == spec_unit_result(raw),
    {
        unit_result(raw)
    }

    /// The `listen` call that has the socket listen for incoming
    /// connections.
    pub fn listen_call(&self, backlog: i32) -> (c: Syscall)
        ensures
            c.op == (Op::Listen { fd: self.spec_fd(), backlog }),
            c.data@ == Seq::<u8>::empty(),
    {
        Syscall::plain(Op::Listen { fd: self.fd, backlog })
    }

    /// What the kernel's answer to [`Self::listen_call`] means.
    pub fn listen(&self, raw: u64) -> (r: Result<(), Error>)
        ensures
            r == spec_unit_result(raw),
    {
        unit_result(raw)
    }
}

/// The writing of a string to a file, which passes the bytes on to the
/// kernel until all are written.
#[derive(Debug)]
pub struct WriteStr {
    fd: i32,
    bytes: Vec<u8>,
    written: usize,
}

impl WriteStr {
    #[verifier::type_invariant]
    spec fn well_formed(&self) -> bool {
        self.written <= self.bytes@.len()
    }

    /// The bytes still to be written.
    pub closed spec fn spec_remaining(&self) -> Seq<u8> {
        self.bytes@.subrange(self.written as int, self.bytes@.len() as int)
    }

    /// The descriptor written to.
    pub closed spec fn spec_fd(&self) -> i32 {
        self.fd
    }

    /// The next `write` call, which passes on all the bytes still to be
    /// written; none once all are written.
    pub fn next_call(&self) -> (c: Option<Syscall>)
        ensures
            c is Some <==> self.spec_remaining().len() > 0,
            c is Some ==> c->Some_0.op == (Op::Write { fd: self.spec_fd() }) && c->Some_0.data@
                == self.spec_remaining(),
    {
        proof {
            use_type_invariant(self);
        }
        if self.written == self.bytes.len() {
            return None;
        }
        let mut data: Vec<u8> = Vec::new();
        let mut i: usize = self.written;
        while i < self.bytes.len()
            invariant
                self.written <= i <= self.bytes@.len(),
                data@ == self.bytes@.subrange(self.written as int, i as int),
            decreases self.bytes@.len() - i,
        {
            data.push(self.bytes[i]);
            i += 1;
            assert(data@ =~= self.bytes@.subrange(self.written as int, i as int));
        }
        Some(Syscall::with_data(Op::Write { fd: self.fd }, data))
    }

    /// What the kernel's answer to the call of [`Self::next_call`] means:
    /// on success the bytes that the kernel took are written and the rest
    /// remain; on failure the kernel's error code is returned and nothing
    /// changes. The kernel never takes more bytes than it was handed.
    pub fn wrote(&mut self, raw: u64) -> (r: Result<(), Error>)
        requires
            !is_error_word(raw) ==> raw <= old(self).spec_remaining().len(),
        ensures
            r == spec_unit_result(raw),
            final(self).spec_fd() == old(self).spec_fd(),
            r is Ok ==> final(self).spec_remaining() == old(self).spec_remaining().subrange(
                raw as int,
                old(self).spec_remaining().len() as int,
            ),
            r is Err ==> final(self).spec_remaining() == old(self).spec_remaining(),
    {
        proof {
            use_type_invariant(&*self);
        }
        let total: usize = self.bytes.len();
        match check(raw) {
            Ok(n) => {
                let ghost before = self.spec_remaining();
                self.written = self.written + (n as usize);
                assert(self.spec_remaining() =~= before.subrange(
                    raw as int,
                    before.len() as int,
                ));
                Ok(())
            },
            Err(e) => Err(e),
        }
    }
}

impl<Device> File<Device> {
    /// Starts the writing of the bytes of `s` to the file.
    pub fn write_str(&self, s: Vec<u8>) -> (w: WriteStr)
        ensures
            w.spec_fd() == self.spec_fd(),
            w.spec_remaining() == s@,
    {
        let w = WriteStr { fd: self.fd, bytes: s, written: 0 };
        assert(w.spec_remaining() =~= s@);
        w
    }
}

/// What the kernel's answer to an `fcntl` command means: the command's own
/// reading of the returned integer, or the kernel's error code.
pub open spec fn spec_fcntl<Cmd: FcntlCmd>(cmd: &Cmd, raw: u64) -> Result<Cmd::Result, Error> {
    match spec_check(raw) {
        Ok(v) => Ok(cmd.spec_result(spec_low32(v))),
        Err(e) => Err(e),
    }
}

/// What the kernel's answer to a `getsockopt` call means, with the option
/// value and the option length as the kernel left them: the kernel's error
/// code where the call failed; "invalid argument" where the kernel wrote a
/// value of another length than the option's type has; otherwise the
/// option's own reading of the value.
pub open spec fn spec_getsockopt<O: GetSockOpt>(
    opt: &O,
    raw: u64,
    optval: Seq<u8>,
    optlen_out: i32,
) -> Result<O::Result, Error> {
    match spec_check(raw) {
        Ok(v) => if optlen_out != O::OptVal::spec_size() {
            Err(Error(EINVAL))
        } else {
            Ok(opt.spec_get_result(spec_low32(v), O::OptVal::spec_decode(optval)))
        },
        Err(e) => Err(e),
    }
}

impl<Device> File<Device> {
    /// The `fcntl` call for `cmd` with argument `arg`.
    pub fn fcntl_call<Cmd: FcntlCmd>(&self, cmd: &Cmd, arg: &Cmd::ExtArg) -> (c: Syscall)
        ensures
            c.op == (Op::Fcntl {
                fd: self.spec_fd(),
                cmd: cmd.spec_cmd(),
                arg: cmd.spec_arg(arg),
            }),
            c.data@ == cmd.spec_data(arg),
    {
        let (raw_cmd, raw_arg, data) = cmd.prepare_fcntl_args(arg);
        Syscall::with_data(Op::Fcntl { fd: self.fd, cmd: raw_cmd, arg: raw_arg }, data)
    }

    /// What the kernel's answer to [`Self::fcntl_call`] means.
    pub fn fcntl<Cmd: FcntlCmd>(&self, cmd: &Cmd, raw: u64) -> (r: Result<Cmd::Result, Error>)
        ensures
            r == spec_fcntl(cmd, raw),
    {
        match prepare_standard_result::<i32>(raw) {
            Ok(v) => Ok(cmd.prepare_fcntl_result(v)),
            Err(e) => Err(Error(e.0)),
        }
    }

    /// The `getsockopt` call that reads a socket option: into a zeroed
    /// buffer of the size that the option's value has.
    pub fn getsockopt_call<O: GetSockOpt>(&self, opt: &O) -> (c: Syscall)
        requires
            O::OptVal::spec_size() <= i32::MAX,
        ensures
            c.op == (Op::Getsockopt {
                fd: self.spec_fd(),
                level: opt.spec_get_level(),
                optname: opt.spec_get_optname(),
                optlen: O::OptVal::spec_size() as i32,
            }),
            c.data@ == Seq::<u8>::empty(),
    {
        let (level, optname) = opt.prepare_getsockopt_args();
        let optlen: i32 = O::OptVal::size() as i32;
        Syscall::plain(Op::Getsockopt { fd: self.fd, level, optname, optlen })
    }

    /// What the kernel's answer to [`Self::getsockopt_call`] means, with
    /// the option value in `optval` and the option length in `optlen_out`
    /// as the kernel left them.
    pub fn getsockopt<O: GetSockOpt>(&self, opt: &O, raw: u64, optval: &[u8], optlen_out: i32) -> (r:
        Result<O::Result, Error>)
        ensures
            r == spec_getsockopt(opt, raw, optval@, optlen_out),
    {
        match prepare_standard_result::<i32>(raw) {
            Ok(result) => {
                let size: usize = O::OptVal::size();
                if optlen_out < 0 || (optlen_out as usize) != size {
                    // The length is not what the option's type has: the
                    // value cannot be read as that type.
                    return Err(Error::new(EINVAL));
                }
                Ok(opt.prepare_getsockopt_result(result, O::OptVal::decode(optval)))
            },
            Err(e) => Err(Error(e.0)),
        }
    }

    /// The `setsockopt` call that sets a socket option to `arg`.
    pub fn setsockopt_call<O: SetSockOpt>(&self, opt: &O, arg: &O::ExtArg) -> (c: Syscall)
        ensures
            c.op == (Op::Setsockopt {
                fd: self.spec_fd(),
                level: opt.spec_set_level(),
                optname: opt.spec_set_optname(),
            }),
            c.data@ == opt.spec_optval(arg),
    {
        let (level, optname, optval) = opt.prepare_setsockopt_args(arg);
        Syscall::with_data(Op::Setsockopt { fd: self.fd, level, optname }, optval)
    }

    /// What the kernel's answer to [`Self::setsockopt_call`] means.
    pub fn setsockopt<O: SetSockOpt>(&self, opt: &O, raw: u64) -> (r: Result<O::Result, Error>)
        ensures
            r == match spec_check(raw) {
                Ok(v) => Ok::<O::Result, Error>(opt.spec_set_result(spec_low32(v))),
                Err(e) => Err::<O::Result, Error>(e),
            },
    {
        match prepare_standard_result::<i32>(raw) {
            Ok(result) => Ok(opt.prepare_setsockopt_result(result)),
            Err(e) => Err(Error(e.0)),
        }
    }
}

} // verus!
