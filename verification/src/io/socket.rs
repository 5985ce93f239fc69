//! Socket address manipulation and socket device requests.

use vstd::prelude::*;
use core::marker::PhantomData;
use crate::io::ioctl::{
    ioctl_read, lemma_ioc_fields, spec_ioc, IoDevice, IoctlReq, IoctlReqRead, SubDevice, _IOR,
};
use crate::sys::layout::{
    bits64, le_u64, lemma_le_u64_at, lemma_u64_le, push_u64, read_u64, signed64, spec_bits64,
    as_signed64, u64_le, Layout,
};
use crate::sys::types::timeval;

/// Address types for the IPv4 and IPv6 protocol families.
pub mod ip;

verus! {

/// Implemented by all socket address types.
pub trait SockAddr {
    /// The bytes of the address as the kernel reads it: a structure that
    /// starts with the address family.
    spec fn spec_sockaddr(&self) -> Seq<u8>;

    /// The bytes of the address, for sending it to the kernel.
    fn sockaddr_bytes(&self) -> (bytes: Vec<u8>)
        ensures
            bytes@ == self.spec_sockaddr(),
    ;
}

/// A socket protocol, which says what device type a socket of that
/// protocol is.
pub trait SocketProtocol {
    type Device: IoDevice;

    /// The number by which the kernel knows the protocol.
    spec fn spec_raw_protocol_num(&self) -> i32;

    fn raw_protocol_num(&self) -> (num: i32)
        ensures
            num == self.spec_raw_protocol_num(),
    ;
}

/// A protocol with a fixed protocol number and device type.
pub struct SocketProtocolFixed<Device: IoDevice> {
    num: i32,
    _phantom: PhantomData<Device>,
}

impl<Device: IoDevice> SocketProtocolFixed<Device> {
    pub fn numbered(num: i32) -> (p: Self)
        ensures
            p.spec_raw_protocol_num() == num,
    {
        SocketProtocolFixed { num, _phantom: PhantomData }
    }
}

impl<Device: IoDevice> SocketProtocol for SocketProtocolFixed<Device> {
    type Device = Device;

    closed spec fn spec_raw_protocol_num(&self) -> i32 {
        self.num
    }

    fn raw_protocol_num(&self) -> (num: i32) {
        self.num
    }
}

/// Builds a protocol with a fixed protocol number and device type.
pub fn socket_protocol<Device: IoDevice>(num: i32) -> (p: SocketProtocolFixed<Device>)
    ensures
        p.spec_raw_protocol_num() == num,
{
    SocketProtocolFixed::numbered(num)
}

/// Device type marker for files that represent sockets.
pub struct SocketDevice;

impl IoDevice for SocketDevice {

}

/// Device type marker for files that represent TCP sockets.
#[derive(Clone, Copy)]
pub struct TcpSocketDevice;

impl IoDevice for TcpSocketDevice {

}

impl SubDevice<SocketDevice> for TcpSocketDevice {

}

/// The type byte of the socket request codes.
pub const SOCK_IOC_TYPE: u64 = 0x89;

impl Layout for timeval {
    open spec fn spec_size() -> nat {
        16
    }

    open spec fn spec_encode(&self) -> Seq<u8> {
        u64_le(spec_bits64(self.tv_sec)) + u64_le(spec_bits64(self.tv_usec))
    }

    open spec fn spec_decode(bytes: Seq<u8>) -> Self {
        timeval {
            tv_sec: as_signed64(le_u64(bytes, 0)) as i64,
            tv_usec: as_signed64(le_u64(bytes, 8)) as i64,
        }
    }

    proof fn lemma_round_trip(&self) {
        let a = u64_le(spec_bits64(self.tv_sec));
        let b = u64_le(spec_bits64(self.tv_usec));
        lemma_u64_le(spec_bits64(self.tv_sec));
        lemma_u64_le(spec_bits64(self.tv_usec));
        assert(self.spec_encode() =~= Seq::<u8>::empty() + a + b);
        lemma_le_u64_at(Seq::empty(), spec_bits64(self.tv_sec), b);
        assert(self.spec_encode() =~= a + b + Seq::<u8>::empty());
        lemma_le_u64_at(a, spec_bits64(self.tv_usec), Seq::empty());
    }

    fn size() -> (n: usize) {
        16
    }

    fn encode(&self) -> (bytes: Vec<u8>) {
        let mut v: Vec<u8> = Vec::new();
        push_u64(&mut v, bits64(self.tv_sec));
        push_u64(&mut v, bits64(self.tv_usec));
        assert(v@ =~= self.spec_encode());
        v
    }

    fn decode(bytes: &[u8]) -> (value: Self) {
        timeval { tv_sec: signed64(read_u64(bytes, 0)), tv_usec: signed64(read_u64(bytes, 8)) }
    }
}

/// The request that retrieves the receive timestamp of the last packet
/// passed to the user.
#[allow(non_snake_case)]
pub fn SIOCGSTAMP() -> (req: IoctlReqRead<SocketDevice, timeval>)
    ensures
        req.spec_request() == spec_ioc(2, SOCK_IOC_TYPE, 0x06, 16),
        req.spec_request() == 0x8010_8906,
{
    proof {
        lemma_ioc_fields(2, SOCK_IOC_TYPE, 0x06, 16);
    }
    ioctl_read(_IOR(SOCK_IOC_TYPE, 0x06, 16))
}

/// The request that returns the amount of queued unread data in the
/// receive buffer.
#[allow(non_snake_case)]
pub fn SIOCINQ() -> (req: IoctlReqRead<TcpSocketDevice, i32>)
    ensures
        req.spec_request() == 0x541B,
{
    ioctl_read(0x541B)
}

/// The request that returns nonzero if the inbound data stream is at the
/// urgent mark.
#[allow(non_snake_case)]
pub fn SIOCATMARK() -> (req: IoctlReqRead<TcpSocketDevice, i32>)
    ensures
        req.spec_request() == 0x8905,
{
    ioctl_read(0x8905)
}

/// The request that returns the amount of unsent data in the socket send
/// queue.
#[allow(non_snake_case)]
pub fn SIOCOUTQ() -> (req: IoctlReqRead<TcpSocketDevice, i32>)
    ensures
        req.spec_request() == 0x5411,
{
    ioctl_read(0x5411)
}

} // verus!
