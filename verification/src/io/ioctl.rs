//! Typed `ioctl` requests.
//!
//! A request value carries its request code together with the types of its
//! argument and result, so that a handle can only be asked what its device
//! understands, and so that the raw argument and the raw result are always
//! interpreted the same way.

use vstd::prelude::*;
use core::marker::PhantomData;
use crate::sys::args::AsRawV;
use crate::sys::call::Arg;
use crate::sys::layout::Layout;

verus! {

/// A device type that can have `ioctl` requests defined for it.
pub trait IoDevice {

}

/// Implemented by device types that also accept the requests of `Parent`.
pub trait SubDevice<Parent: IoDevice>: IoDevice {

}

impl<T: IoDevice> SubDevice<T> for T {

}

/// The request code for direction `dir`, type byte `typ`, number `nr` and
/// argument size `size`, in the kernel's standard numbering scheme.
pub open spec fn spec_ioc(dir: u64, typ: u64, nr: u64, size: u64) -> u64 {
    (dir << 30) | (typ << 8) | (nr << 0) | (size << 16)
}

#[allow(non_snake_case)]
pub fn _IOC(dir: u64, typ: u64, nr: u64, size: u64) -> (code: u64)
    ensures
        code == spec_ioc(dir, typ, nr, size),
{
    (dir << 30) | (typ << 8) | (nr << 0) | (size << 16)
}

/// The request code of a request that neither reads nor writes.
#[allow(non_snake_case)]
pub fn _IO(typ: u64, nr: u64) -> (code: u64)
    ensures
        code == spec_ioc(0, typ, nr, 0),
{
    _IOC(0, typ, nr, 0)
}

/// The request code of a request where userspace reads data from the
/// kernel.
#[allow(non_snake_case)]
pub fn _IOR(typ: u64, nr: u64, size: u64) -> (code: u64)
    ensures
        code == spec_ioc(2, typ, nr, size),
{
    _IOC(2, typ, nr, size)
}

/// The request code of a request where userspace writes data to the
/// kernel.
#[allow(non_snake_case)]
pub fn _IOW(typ: u64, nr: u64, size: u64) -> (code: u64)
    ensures
        code == spec_ioc(1, typ, nr, size),
{
    _IOC(1, typ, nr, size)
}

/// The request code of a request where userspace writes data to the kernel
/// and the kernel returns data back.
#[allow(non_snake_case)]
pub fn _IOWR(typ: u64, nr: u64, size: u64) -> (code: u64)
    ensures
        code == spec_ioc(3, typ, nr, size),
{
    _IOC(3, typ, nr, size)
}

/// With every field in its range, the four fields of a request code do not
/// overlap: the code is their sum at the four positions, and each field
/// can be read back from it.
pub proof fn lemma_ioc_fields(dir: u64, typ: u64, nr: u64, size: u64)
    requires
        dir < 4,
        typ < 0x100,
        nr < 0x100,
        size < 0x4000,
    ensures
        spec_ioc(dir, typ, nr, size) == dir * 0x4000_0000 + size * 0x1_0000 + typ * 0x100 + nr,
        spec_ioc(dir, typ, nr, size) & 0xff == nr,
        (spec_ioc(dir, typ, nr, size) >> 8) & 0xff == typ,
        (spec_ioc(dir, typ, nr, size) >> 16) & 0x3fff == size,
        (spec_ioc(dir, typ, nr, size) >> 30) & 0x3 == dir,
{
    assert(dir < 4 && typ < 0x100 && nr < 0x100 && size < 0x4000 ==> {
        &&& ((dir << 30) | (typ << 8) | (nr << 0) | (size << 16)) == dir * 0x4000_0000 + size
            * 0x1_0000 + typ * 0x100 + nr
        &&& ((dir << 30) | (typ << 8) | (nr << 0) | (size << 16)) & 0xff == nr
        &&& (((dir << 30) | (typ << 8) | (nr << 0) | (size << 16)) >> 8) & 0xff == typ
        &&& (((dir << 30) | (typ << 8) | (nr << 0) | (size << 16)) >> 16) & 0x3fff == size
        &&& (((dir << 30) | (typ << 8) | (nr << 0) | (size << 16)) >> 30) & 0x3 == dir
    }) by (bit_vector);
}

/// Implemented by types that can be made from the integer an `ioctl` call
/// returns.
pub trait FromIoctlResult<Raw>: Sized {
    /// The value that a raw result stands for.
    spec fn spec_from_ioctl_result(raw: &Raw) -> Self;

    fn from_ioctl_result(raw: &Raw) -> (r: Self)
        ensures
            r == Self::spec_from_ioctl_result(raw),
    ;
}

impl FromIoctlResult<i32> for i32 {
    open spec fn spec_from_ioctl_result(raw: &i32) -> Self {
        *raw
    }

    fn from_ioctl_result(raw: &i32) -> (r: Self) {
        *raw
    }
}

/// A particular request that can be issued with the `ioctl` system call on
/// a handle of device type `Device`.
pub trait IoctlReq<Device: IoDevice>: Sized {
    /// The type that the caller provides when using this request; `()` for
    /// requests without a caller-provided argument.
    type ExtArg;

    /// The type of the result of the call.
    type Result;

    /// The request code.
    spec fn spec_request(&self) -> u64;

    /// How the argument reaches the kernel.
    spec fn spec_arg(&self, arg: &Self::ExtArg) -> Arg;

    /// The bytes the kernel reads through the argument pointer; empty where
    /// the request passes none.
    spec fn spec_data(&self, arg: &Self::ExtArg) -> Seq<u8>;

    /// What a successful call means, given the integer it returned and the
    /// bytes the kernel wrote.
    spec fn spec_result(&self, raw: i32, arg: &Self::ExtArg, temp_mem: Seq<u8>) -> Self::Result;

    /// Prepares the request code, the argument and the bytes behind it for
    /// an `ioctl` system call.
    fn prepare_ioctl_args(&self, arg: &Self::ExtArg) -> (r: (u64, Arg, Vec<u8>))
        ensures
            r.0 == self.spec_request(),
            r.1 == self.spec_arg(arg),
            r.2@ == self.spec_data(arg),
    ;

    /// Prepares the result of a successful `ioctl` call to be returned.
    /// `temp_mem` holds the bytes the kernel wrote; it is empty where the
    /// request has the kernel write nothing.
    fn prepare_ioctl_result(&self, raw: i32, arg: &Self::ExtArg, temp_mem: &[u8]) -> (r:
        Self::Result)
        ensures
            r == self.spec_result(raw, arg, temp_mem@),
    ;
}

/// A request with a fixed code that passes no argument at all and returns
/// its result in the system call return value.
pub struct IoctlReqNoArgs<Device: IoDevice, Result> {
    request: u64,
    _phantom: PhantomData<(Device, Result)>,
}

/// A request with a fixed code that has the kernel fill a zeroed value of
/// type `Result`, which is then returned.
pub struct IoctlReqRead<Device: IoDevice, Result: Layout> {
    request: u64,
    _phantom: PhantomData<(Device, Result)>,
}

/// A request with a fixed code that passes its argument directly, without
/// pointer indirection.
pub struct IoctlReqWriteVal<Device: IoDevice, Arg: AsRawV, Result = i32> {
    request: u64,
    _phantom: PhantomData<(Device, Arg, Result)>,
}

/// A request with a fixed code that passes a pointer to an argument value
/// which the kernel only reads.
pub struct IoctlReqWrite<Device: IoDevice, Arg: Layout, Result = i32> {
    request: u64,
    _phantom: PhantomData<(Device, Arg, Result)>,
}

/// A request with a fixed code that passes a pointer to an argument value
/// which the kernel reads and may overwrite.
pub struct IoctlReqWriteRead<Device: IoDevice, Arg: Layout, Result = i32> {
    request: u64,
    _phantom: PhantomData<(Device, Arg, Result)>,
}

/// Constructs a request that passes no payload and returns its result in
/// the system call return value.
pub fn ioctl_no_arg<Device, Result>(request: u64) -> (req: IoctlReqNoArgs<Device, Result>) where
    Device: IoDevice,
    Result: FromIoctlResult<i32>,

    ensures
        req.spec_request() == request,
{
    IoctlReqNoArgs { request, _phantom: PhantomData }
}

/// Constructs a request whose result type maps directly to the data the
/// kernel provides.
pub fn ioctl_read<Device, Result>(request: u64) -> (req: IoctlReqRead<Device, Result>) where
    Device: IoDevice,
    Result: Layout,

    ensures
        req.spec_request() == request,
{
    IoctlReqRead { request, _phantom: PhantomData }
}

/// Constructs a request whose argument the kernel receives directly.
pub fn ioctl_write_val<Device, Arg, Result>(request: u64) -> (req: IoctlReqWriteVal<
    Device,
    Arg,
    Result,
>) where Arg: AsRawV + Copy, Device: IoDevice, Result: FromIoctlResult<i32>
    ensures
        req.spec_request() == request,
{
    IoctlReqWriteVal { request, _phantom: PhantomData }
}

/// Constructs a request whose argument the kernel receives a pointer to
/// and does not modify.
pub fn ioctl_write<Device, Arg, Result>(request: u64) -> (req: IoctlReqWrite<
    Device,
    Arg,
    Result,
>) where Arg: Layout, Device: IoDevice, Result: FromIoctlResult<i32>
    ensures
        req.spec_request() == request,
{
    IoctlReqWrite { request, _phantom: PhantomData }
}

/// Constructs a request whose argument the kernel receives a pointer to
/// and may write back into.
pub fn ioctl_writeread<Device, Arg, Result>(request: u64) -> (req: IoctlReqWriteRead<
    Device,
    Arg,
    Result,
>) where Arg: Layout, Device: IoDevice, Result: FromIoctlResult<i32>
    ensures
        req.spec_request() == request,
{
    IoctlReqWriteRead { request, _phantom: PhantomData }
}

impl<Device: IoDevice, Result: FromIoctlResult<i32>> IoctlReq<Device> for IoctlReqNoArgs<
    Device,
    Result,
> {
    type ExtArg = ();

    type Result = Result;

    closed spec fn spec_request(&self) -> u64 {
        self.request
    }

    open spec fn spec_arg(&self, arg: &()) -> Arg {
        Arg::Void
    }

    open spec fn spec_data(&self, arg: &()) -> Seq<u8> {
        Seq::empty()
    }

    open spec fn spec_result(&self, raw: i32, arg: &(), temp_mem: Seq<u8>) -> Result {
        Result::spec_from_ioctl_result(&raw)
    }

    fn prepare_ioctl_args(&self, arg: &()) -> (r: (u64, Arg, Vec<u8>)) {
        (self.request, Arg::Void, Vec::new())
    }

    fn prepare_ioctl_result(&self, raw: i32, arg: &(), temp_mem: &[u8]) -> (r: Result) {
        Result::from_ioctl_result(&raw)
    }
}

impl<Device: IoDevice, Result: Layout> IoctlReq<Device> for IoctlReqRead<Device, Result> {
    type ExtArg = ();

    type Result = Result;

    closed spec fn spec_request(&self) -> u64 {
        self.request
    }

    open spec fn spec_arg(&self, arg: &()) -> Arg {
        Arg::Out { len: Result::spec_size() as usize }
    }

    open spec fn spec_data(&self, arg: &()) -> Seq<u8> {
        Seq::empty()
    }

    open spec fn spec_result(&self, raw: i32, arg: &(), temp_mem: Seq<u8>) -> Result {
        Result::spec_decode(temp_mem)
    }

    fn prepare_ioctl_args(&self, arg: &()) -> (r: (u64, Arg, Vec<u8>)) {
        (self.request, Arg::Out { len: Result::size() }, Vec::new())
    }

    fn prepare_ioctl_result(&self, raw: i32, arg: &(), temp_mem: &[u8]) -> (r: Result) {
        Result::decode(temp_mem)
    }
}

impl<Device: IoDevice, A: AsRawV + Copy, Result: FromIoctlResult<i32>> IoctlReq<
    Device,
> for IoctlReqWriteVal<Device, A, Result> {
    type ExtArg = A;

    type Result = Result;

    closed spec fn spec_request(&self) -> u64 {
        self.request
    }

    open spec fn spec_arg(&self, arg: &A) -> Arg {
        if arg.spec_raw_is_void() {
            Arg::Void
        } else {
            Arg::Value(arg.spec_to_raw_arg())
        }
    }

    open spec fn spec_data(&self, arg: &A) -> Seq<u8> {
        Seq::empty()
    }

    open spec fn spec_result(&self, raw: i32, arg: &A, temp_mem: Seq<u8>) -> Result {
        Result::spec_from_ioctl_result(&raw)
    }

    fn prepare_ioctl_args(&self, arg: &A) -> (r: (u64, Arg, Vec<u8>)) {
        if (*arg).raw_is_void() {
            (self.request, Arg::Void, Vec::new())
        } else {
            (self.request, Arg::Value((*arg).to_raw_arg()), Vec::new())
        }
    }

    fn prepare_ioctl_result(&self, raw: i32, arg: &A, temp_mem: &[u8]) -> (r: Result) {
        Result::from_ioctl_result(&raw)
    }
}

impl<Device: IoDevice, A: Layout, Result: FromIoctlResult<i32>> IoctlReq<Device> for IoctlReqWrite<
    Device,
    A,
    Result,
> {
    type ExtArg = A;

    type Result = Result;

    closed spec fn spec_request(&self) -> u64 {
        self.request
    }

    open spec fn spec_arg(&self, arg: &A) -> Arg {
        Arg::In
    }

    open spec fn spec_data(&self, arg: &A) -> Seq<u8> {
        arg.spec_encode()
    }

    open spec fn spec_result(&self, raw: i32, arg: &A, temp_mem: Seq<u8>) -> Result {
        Result::spec_from_ioctl_result(&raw)
    }

    fn prepare_ioctl_args(&self, arg: &A) -> (r: (u64, Arg, Vec<u8>)) {
        (self.request, Arg::In, arg.encode())
    }

    fn prepare_ioctl_result(&self, raw: i32, arg: &A, temp_mem: &[u8]) -> (r: Result) {
        Result::from_ioctl_result(&raw)
    }
}

impl<Device: IoDevice, A: Layout, Result: FromIoctlResult<i32>> IoctlReq<
    Device,
> for IoctlReqWriteRead<Device, A, Result> {
    type ExtArg = A;

    /// The call's integer result, and the argument as the kernel left it.
    type Result = (Result, A);

    closed spec fn spec_request(&self) -> u64 {
        self.request
    }

    open spec fn spec_arg(&self, arg: &A) -> Arg {
        Arg::InOut
    }

    open spec fn spec_data(&self, arg: &A) -> Seq<u8> {
        arg.spec_encode()
    }

    open spec fn spec_result(&self, raw: i32, arg: &A, temp_mem: Seq<u8>) -> (Result, A) {
        (Result::spec_from_ioctl_result(&raw), A::spec_decode(temp_mem))
    }

    fn prepare_ioctl_args(&self, arg: &A) -> (r: (u64, Arg, Vec<u8>)) {
        (self.request, Arg::InOut, arg.encode())
    }

    fn prepare_ioctl_result(&self, raw: i32, arg: &A, temp_mem: &[u8]) -> (r: (Result, A)) {
        (Result::from_ioctl_result(&raw), A::decode(temp_mem))
    }
}

} // verus!
