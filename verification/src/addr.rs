//! Address values and the elementary blocks they may lie in.
//!
//! An IPv4 address is four octets, an IPv6 address eight 16-bit segments,
//! both most significant first. Every bit pattern is a valid address, so
//! neither type carries an invariant.

use vstd::prelude::*;

verus! {

/// An IPv4 address `a.b.c.d`, held as its octets `[a, b, c, d]`.
#[derive(Clone, Copy, Debug, PartialEq, Eq, Hash)]
pub struct Ipv4Addr {
    pub octets: [u8; 4],
}

/// An IPv6 address, held as its eight segments.
#[derive(Clone, Copy, Debug, PartialEq, Eq, Hash)]
pub struct Ipv6Addr {
    pub segments: [u16; 8],
}

/// An address of either family.
#[derive(Clone, Copy, Debug, PartialEq, Eq, Hash)]
pub enum IpAddr {
    V4(Ipv4Addr),
    V6(Ipv6Addr),
}

impl Ipv4Addr {
    /// The address `a.b.c.d`.
    pub fn new(a: u8, b: u8, c: u8, d: u8) -> (addr: Ipv4Addr)
        ensures
            addr.octets@ == seq![a, b, c, d],
    {
        Ipv4Addr { octets: [a, b, c, d] }
    }

    /// The four octets, most significant first.
    pub fn octets(&self) -> (o: [u8; 4])
        ensures
            o == self.octets,
    {
        self.octets
    }

    /// The address read as one 32-bit number, first octet most significant.
    pub open spec fn bits(&self) -> int {
        self.octets[0] * 0x100_0000 + self.octets[1] * 0x1_0000 + self.octets[2] * 0x100
            + self.octets[3]
    }

    /// 10.0.0.0/8, 172.16.0.0/12 or 192.168.0.0/16.
    pub open spec fn spec_is_private(&self) -> bool {
        ||| self.octets[0] == 10
        ||| self.octets[0] == 172 && 16 <= self.octets[1] <= 31
        ||| self.octets[0] == 192 && self.octets[1] == 168
    }

    /// 127.0.0.0/8.
    pub open spec fn spec_is_loopback(&self) -> bool {
        self.octets[0] == 127
    }

    /// 169.254.0.0/16.
    pub open spec fn spec_is_link_local(&self) -> bool {
        self.octets[0] == 169 && self.octets[1] == 254
    }

    /// The one address 255.255.255.255.
    pub open spec fn spec_is_broadcast(&self) -> bool {
        self.octets@ == seq![255u8, 255u8, 255u8, 255u8]
    }

    /// 192.0.2.0/24, 198.51.100.0/24 or 203.0.113.0/24.
    pub open spec fn spec_is_documentation(&self) -> bool {
        ||| self.octets[0] == 192 && self.octets[1] == 0 && self.octets[2] == 2
        ||| self.octets[0] == 198 && self.octets[1] == 51 && self.octets[2] == 100
        ||| self.octets[0] == 203 && self.octets[1] == 0 && self.octets[2] == 113
    }

    /// The address as one 32-bit number, first octet most significant.
    pub fn to_bits(&self) -> (n: u32)
        ensures
            n == self.bits(),
    {
        let a: u32 = self.octets[0] as u32;
        let b: u32 = self.octets[1] as u32;
        let c: u32 = self.octets[2] as u32;
        let d: u32 = self.octets[3] as u32;
        assert(((a << 24) | (b << 16) | (c << 8) | d) == a * 0x100_0000 + b * 0x1_0000 + c * 0x100
            + d) by (bit_vector)
            requires
                a < 256,
                b < 256,
                c < 256,
                d < 256,
        ;
        (a << 24) | (b << 16) | (c << 8) | d
    }

    /// Whether the address is reserved for private networks.
    pub fn is_private(&self) -> (r: bool)
        ensures
            r == self.spec_is_private(),
    {
        let a: u8 = self.octets[0];
        let b: u8 = self.octets[1];
        a == 10 || (a == 172 && 16 <= b && b <= 31) || (a == 192 && b == 168)
    }

    /// Whether the address is a loopback address.
    pub fn is_loopback(&self) -> (r: bool)
        ensures
            r == self.spec_is_loopback(),
    {
        self.octets[0] == 127
    }

    /// Whether the address is link-local.
    pub fn is_link_local(&self) -> (r: bool)
        ensures
            r == self.spec_is_link_local(),
    {
        self.octets[0] == 169 && self.octets[1] == 254
    }

    /// Whether the address is the limited broadcast address.
    pub fn is_broadcast(&self) -> (r: bool)
        ensures
            r == self.spec_is_broadcast(),
    {
        let r: bool = self.octets[0] == 255 && self.octets[1] == 255 && self.octets[2] == 255
            && self.octets[3] == 255;
        assert(r ==> self.octets@ =~= seq![255u8, 255u8, 255u8, 255u8]);
        r
    }

    /// Whether the address lies in a block set aside for documentation.
    pub fn is_documentation(&self) -> (r: bool)
        ensures
            r == self.spec_is_documentation(),
    {
        let a: u8 = self.octets[0];
        let b: u8 = self.octets[1];
        let c: u8 = self.octets[2];
        (a == 192 && b == 0 && c == 2) || (a == 198 && b == 51 && c == 100) || (a == 203 && b == 0
            && c == 113)
    }
}

impl Ipv6Addr {
    /// The address `a:b:c:d:e:f:g:h`.
    pub fn new(a: u16, b: u16, c: u16, d: u16, e: u16, f: u16, g: u16, h: u16) -> (addr: Ipv6Addr)
        ensures
            addr.segments@ == seq![a, b, c, d, e, f, g, h],
    {
        Ipv6Addr { segments: [a, b, c, d, e, f, g, h] }
    }

    /// The eight segments, most significant first.
    pub fn segments(&self) -> (s: [u16; 8])
        ensures
            s == self.segments,
    {
        self.segments
    }

    /// ff00::/8.
    pub open spec fn spec_is_multicast(&self) -> bool {
        self.segments[0] >= 0xff00
    }

    /// The one address `::1`.
    pub open spec fn spec_is_loopback(&self) -> bool {
        self.segments@ == seq![0u16, 0u16, 0u16, 0u16, 0u16, 0u16, 0u16, 1u16]
    }

    /// The one address `::`.
    pub open spec fn spec_is_unspecified(&self) -> bool {
        self.segments@ == seq![0u16, 0u16, 0u16, 0u16, 0u16, 0u16, 0u16, 0u16]
    }

    /// Whether the address is a multicast address.
    pub fn is_multicast(&self) -> (r: bool)
        ensures
            r == self.spec_is_multicast(),
    {
        let s: u16 = self.segments[0];
        assert((s & 0xff00 == 0xff00) == (s >= 0xff00)) by (bit_vector);
        (s & 0xff00) == 0xff00
    }

    /// Whether the address is the loopback address.
    pub fn is_loopback(&self) -> (r: bool)
        ensures
            r == self.spec_is_loopback(),
    {
        let s: &[u16; 8] = &self.segments;
        let r: bool = s[0] == 0 && s[1] == 0 && s[2] == 0 && s[3] == 0 && s[4] == 0 && s[5] == 0
            && s[6] == 0 && s[7] == 1;
        assert(r ==> self.segments@ =~= seq![0u16, 0u16, 0u16, 0u16, 0u16, 0u16, 0u16, 1u16]);
        r
    }

    /// Whether the address is the unspecified address.
    pub fn is_unspecified(&self) -> (r: bool)
        ensures
            r == self.spec_is_unspecified(),
    {
        let s: &[u16; 8] = &self.segments;
        let r: bool = s[0] == 0 && s[1] == 0 && s[2] == 0 && s[3] == 0 && s[4] == 0 && s[5] == 0
            && s[6] == 0 && s[7] == 0;
        assert(r ==> self.segments@ =~= seq![0u16, 0u16, 0u16, 0u16, 0u16, 0u16, 0u16, 0u16]);
        r
    }
}

} // verus!
