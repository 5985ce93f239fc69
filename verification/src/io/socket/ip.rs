//! Address types for the IPv4 and IPv6 protocol families.

use vstd::prelude::*;
use vstd::std_specs::convert::FromSpecImpl;
use crate::io::socket::SockAddr;
use crate::sys::layout::{push_u16, push_u32, u16_le, u32_le};

verus! {

/// The IPv4 address family.
pub const AF_INET: u16 = 2;

/// The IPv6 address family.
pub const AF_INET6: u16 = 10;

pub const IPPROTO_ICMP: i32 = 1;
pub const IPPROTO_IGMP: i32 = 4;
pub const IPPROTO_TCP: i32 = 6;
pub const IPPROTO_EGP: i32 = 8;
pub const IPPROTO_PUP: i32 = 12;
pub const IPPROTO_UDP: i32 = 17;
pub const IPPROTO_IDP: i32 = 22;
pub const IPPROTO_TP: i32 = 29;
pub const IPPROTO_DCCP: i32 = 33;
pub const IPPROTO_IPV6: i32 = 41;
pub const IPPROTO_RSVP: i32 = 46;
pub const IPPROTO_GRE: i32 = 47;
pub const IPPROTO_ESP: i32 = 50;
pub const IPPROTO_AH: i32 = 51;
pub const IPPROTO_MTP: i32 = 92;
pub const IPPROTO_ENCAP: i32 = 98;
pub const IPPROTO_PIM: i32 = 103;
pub const IPPROTO_COMP: i32 = 108;
pub const IPPROTO_L2TP: i32 = 115;
pub const IPPROTO_SCTP: i32 = 132;
pub const IPPROTO_UDPLITE: i32 = 136;
pub const IPPROTO_MPLS: i32 = 137;
pub const IPPROTO_ETHERNET: i32 = 143;
pub const IPPROTO_RAW: i32 = 255;
pub const IPPROTO_MPTCP: i32 = 262;

/// The four octets of a 32-bit number, most significant first: network
/// byte order.
pub open spec fn spec_be_octets(raw: u32) -> Seq<u8> {
    seq![
        (raw / 0x100_0000) as u8,
        ((raw / 0x1_0000) % 0x100) as u8,
        ((raw / 0x100) % 0x100) as u8,
        (raw % 0x100) as u8,
    ]
}

/// The 32-bit number whose octets, most significant first, are `o`.
pub open spec fn spec_from_be_octets(o: Seq<u8>) -> int {
    o[0] * 0x100_0000 + o[1] * 0x1_0000 + o[2] * 0x100 + o[3]
}

/// The two octets of a port number, most significant first.
pub open spec fn spec_be_port(port: u16) -> Seq<u8> {
    seq![(port / 0x100) as u8, (port % 0x100) as u8]
}

/// An IPv4 host address.
///
/// This is not a socket address: use [`SockAddrIpv4`] for a host address
/// together with a port number.
#[derive(Clone, Copy, Debug, PartialEq, Eq, Structural)]
pub struct Ipv4Addr {
    addr: u32,
}

impl View for Ipv4Addr {
    type V = u32;

    /// The address as a 32-bit number in host byte order: `127.0.0.1` is
    /// `0x7f000001`.
    closed spec fn view(&self) -> u32 {
        self.addr
    }
}

impl Ipv4Addr {
    /// Equivalent to the constant `INADDR_ANY` in C.
    #[allow(non_snake_case)]
    pub fn ANY() -> (a: Self)
        ensures
            a@ == 0x0000_0000,
    {
        Ipv4Addr { addr: 0x0000_0000 }
    }

    /// Equivalent to the constant `INADDR_NONE` in C.
    #[allow(non_snake_case)]
    pub fn NONE() -> (a: Self)
        ensures
            a@ == 0xffff_ffff,
    {
        Ipv4Addr { addr: 0xffff_ffff }
    }

    /// Equivalent to the constant `INADDR_BROADCAST` in C.
    #[allow(non_snake_case)]
    pub fn BROADCAST() -> (a: Self)
        ensures
            a@ == 0xffff_ffff,
    {
        Ipv4Addr { addr: 0xffff_ffff }
    }

    /// Equivalent to the constant `INADDR_DUMMY` in C.
    #[allow(non_snake_case)]
    pub fn DUMMY() -> (a: Self)
        ensures
            a@ == 0xc000_0008,
    {
        Ipv4Addr { addr: 0xc000_0008 }
    }

    /// Equivalent to the constant `INADDR_LOOPBACK` in C.
    #[allow(non_snake_case)]
    pub fn LOOPBACK() -> (a: Self)
        ensures
            a@ == 0x7f00_0001,
    {
        Ipv4Addr { addr: 0x7f00_0001 }
    }

    /// Equivalent to the constant `INADDR_UNSPEC_GROUP` in C.
    #[allow(non_snake_case)]
    pub fn UNSPEC_GROUP() -> (a: Self)
        ensures
            a@ == 0xe000_0000,
    {
        Ipv4Addr { addr: 0xe000_0000 }
    }

    /// Equivalent to the constant `INADDR_ALLHOSTS_GROUP` in C.
    #[allow(non_snake_case)]
    pub fn ALLHOSTS_GROUP() -> (a: Self)
        ensures
            a@ == 0xe000_0001,
    {
        Ipv4Addr { addr: 0xe000_0001 }
    }

    /// Equivalent to the constant `INADDR_ALLRTRS_GROUP` in C.
    #[allow(non_snake_case)]
    pub fn ALLRTRS_GROUP() -> (a: Self)
        ensures
            a@ == 0xe000_0002,
    {
        Ipv4Addr { addr: 0xe000_0002 }
    }

    /// Equivalent to the constant `INADDR_ALLSNOOPERS_GROUP` in C.
    #[allow(non_snake_case)]
    pub fn ALLSNOOPERS_GROUP() -> (a: Self)
        ensures
            a@ == 0xe000_006a,
    {
        Ipv4Addr { addr: 0xe000_006a }
    }

    /// Constructs an address from a 32-bit number written in host byte
    /// order: the loopback address `127.0.0.1` is `0x7f000001` on every
    /// platform.
    pub fn from_u32(raw: u32) -> (a: Self)
        ensures
            a@ == raw,
    {
        Ipv4Addr { addr: raw }
    }

    /// Constructs an address from octets in network byte order: the first
    /// octet is the first number of the dotted decimal form.
    pub fn from_octets(raw: [u8; 4]) -> (a: Self)
        ensures
            a@ == spec_from_be_octets(raw@),
    {
        let b0: u32 = raw[0] as u32;
        let b1: u32 = raw[1] as u32;
        let b2: u32 = raw[2] as u32;
        let b3: u32 = raw[3] as u32;
        Self::from_u32(b0 * 0x100_0000 + b1 * 0x1_0000 + b2 * 0x100 + b3)
    }

    /// The address as a 32-bit number in host byte order.
    pub fn as_u32(&self) -> (raw: u32)
        ensures
            raw == self@,
    {
        self.addr
    }

    /// The octets of the address in network byte order.
    pub fn as_octets(&self) -> (o: [u8; 4])
        ensures
            o@ == spec_be_octets(self@),
            spec_from_be_octets(o@) == self@,
    {
        let a: u32 = self.as_u32();
        let o: [u8; 4] = [
            (a / 0x100_0000) as u8,
            ((a / 0x1_0000) % 0x100) as u8,
            ((a / 0x100) % 0x100) as u8,
            (a % 0x100) as u8,
        ];
        assert(o@ =~= spec_be_octets(self@));
        o
    }

    /// The octets of the address mapped into IPv6: ten zero octets, two
    /// octets `0xff`, and the four octets of the address.
    pub open spec fn spec_ipv6_mapped(self) -> Seq<u8> {
        seq![0u8, 0u8, 0u8, 0u8, 0u8, 0u8, 0u8, 0u8, 0u8, 0u8, 0xffu8, 0xffu8] + spec_be_octets(
            self@,
        )
    }

    /// The same address in the "IPv6 mapped" form.
    pub fn to_ipv6_mapped(&self) -> (a: Ipv6Addr)
        ensures
            a@ == self.spec_ipv6_mapped(),
    {
        let our_octets = self.as_octets();
        let new_octets: [u8; 16] = [
            0,
            0,
            0,
            0,
            0,
            0,
            0,
            0,
            0,
            0,
            0xff,
            0xff,
            our_octets[0],
            our_octets[1],
            our_octets[2],
            our_octets[3],
        ];
        assert(new_octets@ =~= self.spec_ipv6_mapped());
        Ipv6Addr::from_octets(new_octets)
    }
}

/// A number, as octets and back as a number, is the same number.
pub proof fn lemma_number_round_trip(raw: u32)
    ensures
        spec_be_octets(raw).len() == 4,
        spec_from_be_octets(spec_be_octets(raw)) == raw,
{
}

/// Octets, as a number and back as octets, are the same octets.
pub proof fn lemma_octets_round_trip(o: Seq<u8>)
    requires
        o.len() == 4,
    ensures
        0 <= spec_from_be_octets(o) <= u32::MAX,
        spec_be_octets(spec_from_be_octets(o) as u32) == o,
{
    let n = spec_from_be_octets(o);
    let low = o[1] * 0x1_0000 + o[2] * 0x100 + o[3];
    assert(0 <= low < 0x100_0000);
    assert(n == o[0] * 0x100_0000 + low);
    assert(n / 0x100_0000 == o[0]);
    let low2 = o[2] * 0x100 + o[3];
    assert(n == (o[0] * 0x100 + o[1]) * 0x1_0000 + low2);
    assert(n / 0x1_0000 == o[0] * 0x100 + o[1]);
    assert(n == (o[0] * 0x1_0000 + o[1] * 0x100 + o[2]) * 0x100 + o[3]);
    assert(n / 0x100 == o[0] * 0x1_0000 + o[1] * 0x100 + o[2]);
    assert(n % 0x100 == o[3]);
    assert(spec_be_octets(n as u32) =~= o);
}

/// An IPv6 host address.
///
/// This is not a socket address: use [`SockAddrIpv6`] for a host address
/// together with a port number.
#[derive(Clone, Copy, Debug, PartialEq, Eq)]
pub struct Ipv6Addr {
    s6_addr: [u8; 16],
}

impl View for Ipv6Addr {
    type V = Seq<u8>;

    /// The sixteen octets of the address in network byte order.
    closed spec fn view(&self) -> Seq<u8> {
        self.s6_addr@
    }
}

impl Ipv6Addr {
    /// Equivalent to the constant `IN6ADDR_ANY_INIT` in C.
    #[allow(non_snake_case)]
    pub fn ANY() -> (a: Self)
        ensures
            a@ == seq![0u8, 0u8, 0u8, 0u8, 0u8, 0u8, 0u8, 0u8, 0u8, 0u8, 0u8, 0u8, 0u8, 0u8, 0u8, 0u8],
    {
        Self::from_octets([0, 0, 0, 0, 0, 0, 0, 0, 0, 0, 0, 0, 0, 0, 0, 0])
    }

    /// Equivalent to the constant `IN6ADDR_LOOPBACK_INIT` in C.
    #[allow(non_snake_case)]
    pub fn LOOPBACK() -> (a: Self)
        ensures
            a@ == seq![0u8, 0u8, 0u8, 0u8, 0u8, 0u8, 0u8, 0u8, 0u8, 0u8, 0u8, 0u8, 0u8, 0u8, 0u8, 1u8],
    {
        Self::from_octets([0, 0, 0, 0, 0, 0, 0, 0, 0, 0, 0, 0, 0, 0, 0, 1])
    }

    /// Equivalent to the constant `IN6ADDR_LINKLOCAL_ALLNODES_INIT` in C.
    #[allow(non_snake_case)]
    pub fn LINKLOCAL_ALLNODES() -> (a: Self)
        ensures
            a@ == seq![
                0xffu8,
                2u8,
                0u8,
                0u8,
                0u8,
                0u8,
                0u8,
                0u8,
                0u8,
                0u8,
                0u8,
                0u8,
                0u8,
                0u8,
                0u8,
                1u8,
            ],
    {
        Self::from_octets([0xff, 2, 0, 0, 0, 0, 0, 0, 0, 0, 0, 0, 0, 0, 0, 1])
    }

    /// Equivalent to the constant `IN6ADDR_LINKLOCAL_ALLROUTERS_INIT` in C.
    #[allow(non_snake_case)]
    pub fn LINKLOCAL_ALLROUTERS() -> (a: Self)
        ensures
            a@ == seq![
                0xffu8,
                2u8,
                0u8,
                0u8,
                0u8,
                0u8,
                0u8,
                0u8,
                0u8,
                0u8,
                0u8,
                0u8,
                0u8,
                0u8,
                0u8,
                2u8,
            ],
    {
        Self::from_octets([0xff, 2, 0, 0, 0, 0, 0, 0, 0, 0, 0, 0, 0, 0, 0, 2])
    }

    /// Equivalent to the constant `IN6ADDR_INTERFACELOCAL_ALLNODES_INIT` in
    /// C.
    #[allow(non_snake_case)]
    pub fn INTERFACELOCAL_ALLNODES() -> (a: Self)
        ensures
            a@ == seq![
                0xffu8,
                1u8,
                0u8,
                0u8,
                0u8,
                0u8,
                0u8,
                0u8,
                0u8,
                0u8,
                0u8,
                0u8,
                0u8,
                0u8,
                0u8,
                1u8,
            ],
    {
        Self::from_octets([0xff, 1, 0, 0, 0, 0, 0, 0, 0, 0, 0, 0, 0, 0, 0, 1])
    }

    /// Equivalent to the constant `IN6ADDR_INTERFACELOCAL_ALLROUTERS_INIT`
    /// in C.
    #[allow(non_snake_case)]
    pub fn INTERFACELOCAL_ALLROUTERS() -> (a: Self)
        ensures
            a@ == seq![
                0xffu8,
                1u8,
                0u8,
                0u8,
                0u8,
                0u8,
                0u8,
                0u8,
                0u8,
                0u8,
                0u8,
                0u8,
                0u8,
                0u8,
                0u8,
                2u8,
            ],
    {
        Self::from_octets([0xff, 1, 0, 0, 0, 0, 0, 0, 0, 0, 0, 0, 0, 0, 0, 2])
    }

    /// Equivalent to the constant `IN6ADDR_SITELOCAL_ALLROUTERS_INIT` in C.
    #[allow(non_snake_case)]
    pub fn SITELOCAL_ALLROUTERS() -> (a: Self)
        ensures
            a@ == seq![
                0xffu8,
                5u8,
                0u8,
                0u8,
                0u8,
                0u8,
                0u8,
                0u8,
                0u8,
                0u8,
                0u8,
                0u8,
                0u8,
                0u8,
                0u8,
                2u8,
            ],
    {
        Self::from_octets([0xff, 5, 0, 0, 0, 0, 0, 0, 0, 0, 0, 0, 0, 0, 0, 2])
    }

    /// Constructs an address from octets in network byte order.
    pub fn from_octets(raw: [u8; 16]) -> (a: Self)
        ensures
            a@ == raw@,
    {
        Ipv6Addr { s6_addr: raw }
    }

    /// The octets of the address in network byte order.
    pub fn as_octets(&self) -> (o: [u8; 16])
        ensures
            o@ == self@,
    {
        self.s6_addr
    }
}

/// A host address that is either an IPv4 address or an IPv6 address.
#[derive(Clone, Copy, Debug, PartialEq, Eq)]
pub enum IpAddr {
    V4(Ipv4Addr),
    V6(Ipv6Addr),
}

impl IpAddr {
    /// The equivalent IPv6 address: the address itself where it is one,
    /// the mapped form of an IPv4 address.
    pub fn to_ipv6_mapped(self) -> (a: Ipv6Addr)
        ensures
            a@ == match self {
                IpAddr::V4(addr) => addr.spec_ipv6_mapped(),
                IpAddr::V6(addr) => addr@,
            },
    {
        match self {
            IpAddr::V4(addr) => addr.to_ipv6_mapped(),
            IpAddr::V6(addr) => addr,
        }
    }
}

impl From<Ipv4Addr> for IpAddr {
    fn from(value: Ipv4Addr) -> (a: Self) {
        IpAddr::V4(value)
    }
}

impl FromSpecImpl<Ipv4Addr> for IpAddr {
    open spec fn obeys_from_spec() -> bool {
        true
    }

    open spec fn from_spec(v: Ipv4Addr) -> Self {
        IpAddr::V4(v)
    }
}

impl From<Ipv6Addr> for IpAddr {
    fn from(value: Ipv6Addr) -> (a: Self) {
        IpAddr::V6(value)
    }
}

impl FromSpecImpl<Ipv6Addr> for IpAddr {
    open spec fn obeys_from_spec() -> bool {
        true
    }

    open spec fn from_spec(v: Ipv6Addr) -> Self {
        IpAddr::V6(v)
    }
}

/// Socket address type for the IPv4 protocol family.
#[derive(Clone, Copy, Debug, PartialEq, Eq, Structural)]
pub struct SockAddrIpv4 {
    sin_family: u16,
    /// In host byte order; it goes to the kernel in network byte order.
    sin_port: u16,
    sin_addr: Ipv4Addr,
}

impl SockAddrIpv4 {
    /// The host address part of the socket address.
    pub closed spec fn spec_host_address(&self) -> Ipv4Addr {
        self.sin_addr
    }

    /// The port number in host byte order.
    pub closed spec fn spec_port(&self) -> u16 {
        self.sin_port
    }

    /// The address family, always [`AF_INET`].
    pub closed spec fn spec_family(&self) -> u16 {
        self.sin_family
    }

    /// Creates a socket address with the specified IP address and port
    /// number, the port given in host byte order.
    pub fn new(host_addr: Ipv4Addr, port: u16) -> (a: Self)
        ensures
            a.spec_host_address() == host_addr,
            a.spec_port() == port,
            a.spec_family() == AF_INET,
    {
        SockAddrIpv4 { sin_family: AF_INET, sin_port: port, sin_addr: host_addr }
    }

    #[verifier::when_used_as_spec(spec_host_address)]
    pub fn host_address(&self) -> (a: Ipv4Addr)
        ensures
            a == self.spec_host_address(),
    {
        self.sin_addr
    }

    /// The port number in host (not network) byte order.
    #[verifier::when_used_as_spec(spec_port)]
    pub fn port(&self) -> (p: u16)
        ensures
            p == self.spec_port(),
    {
        self.sin_port
    }
}

impl SockAddr for SockAddrIpv4 {
    /// Sixteen bytes: the family, the port in network byte order, the four
    /// octets of the address, and eight zero bytes.
    open spec fn spec_sockaddr(&self) -> Seq<u8> {
        u16_le(self.spec_family()) + spec_be_port(self.spec_port()) + spec_be_octets(
            self.spec_host_address()@,
        ) + seq![0u8, 0u8, 0u8, 0u8, 0u8, 0u8, 0u8, 0u8]
    }

    fn sockaddr_bytes(&self) -> (bytes: Vec<u8>) {
        let mut v: Vec<u8> = Vec::new();
        push_u16(&mut v, self.sin_family);
        v.push((self.sin_port / 0x100) as u8);
        v.push((self.sin_port % 0x100) as u8);
        let o = self.sin_addr.as_octets();
        v.push(o[0]);
        v.push(o[1]);
        v.push(o[2]);
        v.push(o[3]);
        let mut i: usize = 0;
        while i < 8
            invariant
                i <= 8,
                v@ == u16_le(self.spec_family()) + spec_be_port(self.spec_port()) + spec_be_octets(
                    self.spec_host_address()@,
                ) + Seq::new(i as nat, |j: int| 0u8),
            decreases 8 - i,
        {
            v.push(0);
            i += 1;
            assert(v@ =~= u16_le(self.spec_family()) + spec_be_port(self.spec_port())
                + spec_be_octets(self.spec_host_address()@) + Seq::new(i as nat, |j: int| 0u8));
        }
        assert(v@ =~= self.spec_sockaddr());
        v
    }
}

/// Socket address type for the IPv6 protocol family.
#[derive(Clone, Copy, Debug, PartialEq, Eq)]
pub struct SockAddrIpv6 {
    sin6_family: u16,
    /// In host byte order; it goes to the kernel in network byte order.
    sin6_port: u16,
    sin6_flowinfo: u32,
    sin6_addr: Ipv6Addr,
    sin6_scope_id: u32,
}

impl SockAddrIpv6 {
    /// The host address part of the socket address.
    pub closed spec fn spec_host_address(&self) -> Ipv6Addr {
        self.sin6_addr
    }

    /// The port number in host byte order.
    pub closed spec fn spec_port(&self) -> u16 {
        self.sin6_port
    }

    /// The scope id of the address.
    pub closed spec fn spec_scope_id(&self) -> u32 {
        self.sin6_scope_id
    }

    /// The flow information, always zero.
    pub closed spec fn spec_flowinfo(&self) -> u32 {
        self.sin6_flowinfo
    }

    /// The address family, always [`AF_INET6`].
    pub closed spec fn spec_family(&self) -> u16 {
        self.sin6_family
    }

    /// Creates a socket address with the specified IP address and port
    /// number, the port given in host byte order, and scope id zero.
    pub fn new(host_addr: Ipv6Addr, port: u16) -> (a: Self)
        ensures
            a.spec_host_address() == host_addr,
            a.spec_port() == port,
            a.spec_scope_id() == 0,
            a.spec_flowinfo() == 0,
            a.spec_family() == AF_INET6,
    {
        SockAddrIpv6 {
            sin6_family: AF_INET6,
            sin6_port: port,
            sin6_addr: host_addr,
            sin6_flowinfo: 0,
            sin6_scope_id: 0,
        }
    }

    /// Creates a socket address with the specified IP address, port number
    /// and scope id, the port given in host byte order.
    pub fn new_with_scope(host_addr: Ipv6Addr, port: u16, scope_id: u32) -> (a: Self)
        ensures
            a.spec_host_address() == host_addr,
            a.spec_port() == port,
            a.spec_scope_id() == scope_id,
            a.spec_flowinfo() == 0,
            a.spec_family() == AF_INET6,
    {
        SockAddrIpv6 {
            sin6_family: AF_INET6,
            sin6_port: port,
            sin6_addr: host_addr,
            sin6_flowinfo: 0,
            sin6_scope_id: scope_id,
        }
    }

    #[verifier::when_used_as_spec(spec_host_address)]
    pub fn host_address(&self) -> (a: Ipv6Addr)
        ensures
            a == self.spec_host_address(),
    {
        self.sin6_addr
    }

    /// The port number in host (not network) byte order.
    #[verifier::when_used_as_spec(spec_port)]
    pub fn port(&self) -> (p: u16)
        ensures
            p == self.spec_port(),
    {
        self.sin6_port
    }

    /// The scope id of the address.
    #[verifier::when_used_as_spec(spec_scope_id)]
    pub fn scope_id(&self) -> (id: u32)
        ensures
            id == self.spec_scope_id(),
    {
        self.sin6_scope_id
    }
}

impl SockAddr for SockAddrIpv6 {
    /// Twenty-eight bytes: the family, the port in network byte order, the
    /// flow information, the sixteen octets of the address, and the scope
    /// id.
    open spec fn spec_sockaddr(&self) -> Seq<u8> {
        u16_le(self.spec_family()) + spec_be_port(self.spec_port()) + u32_le(self.spec_flowinfo())
            + self.spec_host_address()@ + u32_le(self.spec_scope_id())
    }

    fn sockaddr_bytes(&self) -> (bytes: Vec<u8>) {
        let mut v: Vec<u8> = Vec::new();
        push_u16(&mut v, self.sin6_family);
        v.push((self.sin6_port / 0x100) as u8);
        v.push((self.sin6_port % 0x100) as u8);
        push_u32(&mut v, self.sin6_flowinfo);
        let o = self.sin6_addr.as_octets();
        let ghost head = v@;
        assert(head =~= u16_le(self.spec_family()) + spec_be_port(self.spec_port()) + u32_le(
            self.spec_flowinfo(),
        ));
        let mut i: usize = 0;
        while i < 16
            invariant
                i <= 16,
                o@ == self.spec_host_address()@,
                v@ == head + o@.subrange(0, i as int),
            decreases 16 - i,
        {
            v.push(o[i]);
            i += 1;
            assert(v@ =~= head + o@.subrange(0, i as int));
        }
        assert(o@.subrange(0, 16) =~= o@);
        push_u32(&mut v, self.sin6_scope_id);
        v
    }
}

/// A socket address that is for either an IPv4 socket or an IPv6 socket.
#[derive(Clone, Copy, Debug)]
pub struct SockAddrIp(SockAddrIpInner);

#[derive(Clone, Copy, Debug)]
enum SockAddrIpInner {
    V4(SockAddrIpv4),
    V6(SockAddrIpv6),
}

impl SockAddrIp {
    /// The host address part of the socket address.
    pub closed spec fn spec_host_address(&self) -> IpAddr {
        match self.0 {
            SockAddrIpInner::V4(a) => IpAddr::V4(a.spec_host_address()),
            SockAddrIpInner::V6(a) => IpAddr::V6(a.spec_host_address()),
        }
    }

    /// The port number in host byte order.
    pub closed spec fn spec_port(&self) -> u16 {
        match self.0 {
            SockAddrIpInner::V4(a) => a.spec_port(),
            SockAddrIpInner::V6(a) => a.spec_port(),
        }
    }

    /// The socket address of the family that the host address belongs to,
    /// with the given port number in host byte order.
    pub fn new(host_address: IpAddr, port: u16) -> (a: Self)
        ensures
            a.spec_host_address() == host_address,
            a.spec_port() == port,
            a.spec_sockaddr() == match host_address {
                IpAddr::V4(addr) => u16_le(AF_INET) + spec_be_port(port) + spec_be_octets(addr@)
                    + seq![0u8, 0u8, 0u8, 0u8, 0u8, 0u8, 0u8, 0u8],
                IpAddr::V6(addr) => u16_le(AF_INET6) + spec_be_port(port) + u32_le(0) + addr@
                    + u32_le(0),
            },
    {
        match host_address {
            IpAddr::V4(addr) => SockAddrIp(SockAddrIpInner::V4(SockAddrIpv4::new(addr, port))),
            IpAddr::V6(addr) => SockAddrIp(SockAddrIpInner::V6(SockAddrIpv6::new(addr, port))),
        }
    }

    /// The address family that this address is for: [`AF_INET`] for an
    /// IPv4 host address, [`AF_INET6`] for an IPv6 one.
    pub fn address_family(&self) -> (family: u16)
        ensures
            family == match self.spec_host_address() {
                IpAddr::V4(_) => AF_INET,
                IpAddr::V6(_) => AF_INET6,
            },
    {
        match self.0 {
            SockAddrIpInner::V4(_) => AF_INET,
            SockAddrIpInner::V6(_) => AF_INET6,
        }
    }

    #[verifier::when_used_as_spec(spec_host_address)]
    pub fn host_address(&self) -> (a: IpAddr)
        ensures
            a == self.spec_host_address(),
    {
        match self.0 {
            SockAddrIpInner::V4(a) => IpAddr::V4(a.host_address()),
            SockAddrIpInner::V6(a) => IpAddr::V6(a.host_address()),
        }
    }

    /// The port number in host (not network) byte order.
    #[verifier::when_used_as_spec(spec_port)]
    pub fn port(&self) -> (p: u16)
        ensures
            p == self.spec_port(),
    {
        match self.0 {
            SockAddrIpInner::V4(a) => a.port(),
            SockAddrIpInner::V6(a) => a.port(),
        }
    }
}

impl SockAddr for SockAddrIp {
    closed spec fn spec_sockaddr(&self) -> Seq<u8> {
        match self.0 {
            SockAddrIpInner::V4(a) => a.spec_sockaddr(),
            SockAddrIpInner::V6(a) => a.spec_sockaddr(),
        }
    }

    fn sockaddr_bytes(&self) -> (bytes: Vec<u8>) {
        match self.0 {
            SockAddrIpInner::V4(a) => a.sockaddr_bytes(),
            SockAddrIpInner::V6(a) => a.sockaddr_bytes(),
        }
    }
}

} // verus!
