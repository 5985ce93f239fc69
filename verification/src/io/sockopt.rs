//! Typed socket options for `setsockopt` and `getsockopt`.

use vstd::prelude::*;
use core::marker::PhantomData;
use crate::sys::layout::Layout;

verus! {

/// The sockopt "level" for general socket options that are not
/// protocol-specific.
pub const SOL_SOCKET: i32 = 1;

/// Implemented by options that can be used with `setsockopt`.
pub trait SetSockOpt: Sized {
    /// The type that the caller provides when setting this option.
    type ExtArg;

    /// The type of the result of the call.
    type Result;

    spec fn spec_set_level(&self) -> i32;

    spec fn spec_set_optname(&self) -> i32;

    /// The bytes of the option value that the kernel reads.
    spec fn spec_optval(&self, arg: &Self::ExtArg) -> Seq<u8>;

    /// What a successful call means, given the integer it returned.
    spec fn spec_set_result(&self, raw: i32) -> Self::Result;

    /// Prepares the level, the option name and the option value for a
    /// `setsockopt` system call; the option length is the length of the
    /// value.
    fn prepare_setsockopt_args(&self, arg: &Self::ExtArg) -> (r: (i32, i32, Vec<u8>))
        ensures
            r.0 == self.spec_set_level(),
            r.1 == self.spec_set_optname(),
            r.2@ == self.spec_optval(arg),
    ;

    /// Prepares the result of a successful `setsockopt` call to be
    /// returned.
    fn prepare_setsockopt_result(&self, raw: i32) -> (r: Self::Result)
        ensures
            r == self.spec_set_result(raw),
    ;
}

/// Implemented by options that can be used with `getsockopt`.
pub trait GetSockOpt: Sized {
    /// The type that the option value has in the kernel.
    type OptVal: Layout;

    /// The type of the result of the call.
    type Result;

    spec fn spec_get_level(&self) -> i32;

    spec fn spec_get_optname(&self) -> i32;

    /// What a successful call means, given the integer it returned and the
    /// option value the kernel wrote.
    spec fn spec_get_result(&self, retval: i32, optval: Self::OptVal) -> Self::Result;

    /// Prepares the level and the option name for a `getsockopt` system
    /// call.
    fn prepare_getsockopt_args(&self) -> (r: (i32, i32))
        ensures
            r.0 == self.spec_get_level(),
            r.1 == self.spec_get_optname(),
    ;

    /// Prepares the result of a successful `getsockopt` call to be
    /// returned.
    fn prepare_getsockopt_result(&self, retval: i32, optval: Self::OptVal) -> (r: Self::Result)
        ensures
            r == self.spec_get_result(retval, optval),
    ;
}

/// An option with fixed level and option name whose value goes to and
/// comes from the kernel as it is.
pub struct DirectSockOpt<T> {
    level: i32,
    optname: i32,
    _phantom: PhantomData<T>,
}

/// As [`DirectSockOpt`], for options that can only be read.
pub struct DirectSockOptReadOnly<T>(DirectSockOpt<T>);

/// Constructs an option whose caller-facing type is the type the kernel
/// has for it, with fixed level and option name.
pub fn sockopt<T: Layout>(level: i32, optname: i32) -> (o: DirectSockOpt<T>)
    ensures
        o.spec_get_level() == level,
        o.spec_get_optname() == optname,
        o.spec_set_level() == level,
        o.spec_set_optname() == optname,
{
    DirectSockOpt { level, optname, _phantom: PhantomData }
}

/// Constructs an option as [`sockopt`] does, which can only be read.
pub fn sockopt_readonly<T: Layout>(level: i32, optname: i32) -> (o: DirectSockOptReadOnly<T>)
    ensures
        o.spec_get_level() == level,
        o.spec_get_optname() == optname,
{
    DirectSockOptReadOnly(sockopt::<T>(level, optname))
}

impl<T: Layout> SetSockOpt for DirectSockOpt<T> {
    type ExtArg = T;

    type Result = i32;

    closed spec fn spec_set_level(&self) -> i32 {
        self.level
    }

    closed spec fn spec_set_optname(&self) -> i32 {
        self.optname
    }

    open spec fn spec_optval(&self, arg: &T) -> Seq<u8> {
        arg.spec_encode()
    }

    open spec fn spec_set_result(&self, raw: i32) -> i32 {
        raw
    }

    fn prepare_setsockopt_args(&self, arg: &T) -> (r: (i32, i32, Vec<u8>)) {
        (self.level, self.optname, arg.encode())
    }

    fn prepare_setsockopt_result(&self, raw: i32) -> (r: i32) {
        raw
    }
}

impl<T: Layout> GetSockOpt for DirectSockOpt<T> {
    type OptVal = T;

    type Result = T;

    closed spec fn spec_get_level(&self) -> i32 {
        self.level
    }

    closed spec fn spec_get_optname(&self) -> i32 {
        self.optname
    }

    open spec fn spec_get_result(&self, retval: i32, optval: T) -> T {
        optval
    }

    fn prepare_getsockopt_args(&self) -> (r: (i32, i32)) {
        (self.level, self.optname)
    }

    fn prepare_getsockopt_result(&self, retval: i32, optval: T) -> (r: T) {
        optval
    }
}

impl<T: Layout> GetSockOpt for DirectSockOptReadOnly<T> {
    type OptVal = T;

    type Result = T;

    closed spec fn spec_get_level(&self) -> i32 {
        self.0.spec_get_level()
    }

    closed spec fn spec_get_optname(&self) -> i32 {
        self.0.spec_get_optname()
    }

    open spec fn spec_get_result(&self, retval: i32, optval: T) -> T {
        optval
    }

    fn prepare_getsockopt_args(&self) -> (r: (i32, i32)) {
        self.0.prepare_getsockopt_args()
    }

    fn prepare_getsockopt_result(&self, retval: i32, optval: T) -> (r: T) {
        self.0.prepare_getsockopt_result(retval, optval)
    }
}

/// Whether the socket has been marked to accept connections: `1` where it
/// is listening, `0` where it is not.
#[allow(non_snake_case)]
pub fn SO_ACCEPTCONN() -> (o: DirectSockOptReadOnly<i32>)
    ensures
        o.spec_get_level() == SOL_SOCKET,
        o.spec_get_optname() == 30,
{
    sockopt_readonly(SOL_SOCKET, 30)
}

/// The protocol/address family of the socket.
#[allow(non_snake_case)]
pub fn SO_DOMAIN() -> (o: DirectSockOptReadOnly<i32>)
    ensures
        o.spec_get_level() == SOL_SOCKET,
        o.spec_get_optname() == 39,
{
    sockopt_readonly(SOL_SOCKET, 39)
}

/// Send only to directly-connected hosts, ignoring any configured gateway:
/// `1` for direct connections only, `0` to allow gateways.
#[allow(non_snake_case)]
pub fn SO_DONTROUTE() -> (o: DirectSockOpt<i32>)
    ensures
        o.spec_get_level() == SOL_SOCKET,
        o.spec_get_optname() == 5,
        o.spec_set_level() == SOL_SOCKET,
        o.spec_set_optname() == 5,
{
    sockopt(SOL_SOCKET, 5)
}

/// Send periodic keepalive messages on connection-oriented sockets: `1`
/// enables them, `0` disables them.
#[allow(non_snake_case)]
pub fn SO_KEEPALIVE() -> (o: DirectSockOpt<i32>)
    ensures
        o.spec_get_level() == SOL_SOCKET,
        o.spec_get_optname() == 9,
        o.spec_set_level() == SOL_SOCKET,
        o.spec_set_optname() == 9,
{
    sockopt(SOL_SOCKET, 9)
}

} // verus!
