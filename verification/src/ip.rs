//! Global reachability of an address, for each family and for an address
//! of either.

use crate::addr::{IpAddr, Ipv4Addr, Ipv6Addr};
use crate::ipv4::Ipv4AddrExt;
use crate::ipv6::{Ipv6AddrExt, Ipv6MulticastScope};
use vstd::prelude::*;

verus! {

/// Reachability on the public internet.
pub trait IpExt {
    /// The address is reachable on the public internet: no special-purpose
    /// block that is not globally routable claims it.
    spec fn spec_is_global(&self) -> bool;

    /// Whether the address is reachable on the public internet.
    fn is_global(&self) -> (r: bool)
        ensures
            r == self.spec_is_global(),
    ;
}

impl IpExt for Ipv4Addr {
    /// 192.0.0.9 and 192.0.0.10 are global although they lie in the block
    /// of IETF protocol assignments. Any other address is global unless one
    /// of the special-purpose blocks, or 0.0.0.0/8, holds it.
    open spec fn spec_is_global(&self) -> bool {
        ||| self.octets@ == seq![192u8, 0u8, 0u8, 9u8]
        ||| self.octets@ == seq![192u8, 0u8, 0u8, 10u8]
        ||| {
            &&& !self.spec_is_private()
            &&& !self.spec_is_loopback()
            &&& !self.spec_is_link_local()
            &&& !self.spec_is_broadcast()
            &&& !self.spec_is_documentation()
            &&& !self.spec_is_shared()
            &&& !self.spec_is_ietf_protocol_assignment()
            &&& !self.spec_is_reserved()
            &&& !self.spec_is_benchmarking()
            &&& self.octets[0] != 0
        }
    }

    fn is_global(&self) -> (r: bool) {
        let n: u32 = self.to_bits();
        assert(n == 0xc000_0009 <==> self.octets@ =~= seq![192u8, 0u8, 0u8, 9u8]);
        assert(n == 0xc000_000a <==> self.octets@ =~= seq![192u8, 0u8, 0u8, 10u8]);
        if n == 0xc000_0009 || n == 0xc000_000a {
            return true;
        }
        !self.is_private() && !self.is_loopback() && !self.is_link_local() && !self.is_broadcast()
            && !self.is_documentation() && !self.is_shared()
            && !self.is_ietf_protocol_assignment() && !self.is_reserved()
            && !self.is_benchmarking() && self.octets()[0] != 0
    }
}

impl IpExt for Ipv6Addr {
    /// A multicast address is global exactly when its scope is global; any
    /// other address, exactly when it is a global unicast address.
    open spec fn spec_is_global(&self) -> bool {
        ||| self.spec_multicast_scope() == Some(Ipv6MulticastScope::Global)
        ||| !self.spec_is_multicast() && self.spec_is_unicast_global()
    }

    fn is_global(&self) -> (r: bool) {
        match self.multicast_scope() {
            Some(Ipv6MulticastScope::Global) => true,
            None => self.is_unicast_global(),
            _ => false,
        }
    }
}

impl IpExt for IpAddr {
    /// What the address's own family says of it.
    open spec fn spec_is_global(&self) -> bool {
        match self {
            IpAddr::V4(ip) => ip.spec_is_global(),
            IpAddr::V6(ip) => ip.spec_is_global(),
        }
    }

    fn is_global(&self) -> (r: bool) {
        match self {
            IpAddr::V4(ip) => ip.is_global(),
            IpAddr::V6(ip) => ip.is_global(),
        }
    }
}

/// Global reachability of an IPv4 address is a function of its 32-bit
/// pattern alone: two addresses with the same bits are classified alike.
pub proof fn lemma_ipv4_global_by_bits(a: Ipv4Addr, b: Ipv4Addr)
    requires
        a.bits() == b.bits(),
    ensures
        a.spec_is_global() == b.spec_is_global(),
{
    assert(a.octets@ =~= b.octets@);
}

/// No IPv4 address in a special-purpose block is global, but for 192.0.0.9
/// and 192.0.0.10 in the block of IETF protocol assignments.
pub proof fn lemma_ipv4_special_blocks_not_global(a: Ipv4Addr)
    ensures
        a.spec_is_private() ==> !a.spec_is_global(),
        a.spec_is_loopback() ==> !a.spec_is_global(),
        a.spec_is_link_local() ==> !a.spec_is_global(),
        a.spec_is_broadcast() ==> !a.spec_is_global(),
        a.spec_is_documentation() ==> !a.spec_is_global(),
        a.spec_is_shared() ==> !a.spec_is_global(),
        a.spec_is_reserved() ==> !a.spec_is_global(),
        a.spec_is_benchmarking() ==> !a.spec_is_global(),
        a.octets[0] == 0 ==> !a.spec_is_global(),
        a.spec_is_ietf_protocol_assignment() ==> (a.spec_is_global() <==> a.octets[3] == 9
            || a.octets[3] == 10),
{
    if a.octets[0] == 192 && a.octets[1] == 0 && a.octets[2] == 0 && (a.octets[3] == 9
        || a.octets[3] == 10) {
        assert(a.octets@ =~= seq![192u8, 0u8, 0u8, a.octets[3]]);
    }
}

/// A multicast IPv6 address is global only by its scope: with any other
/// scope than global, or with a scope field that names none, it is not.
pub proof fn lemma_ipv6_multicast_global_by_scope(a: Ipv6Addr)
    requires
        a.spec_is_multicast(),
    ensures
        a.spec_is_global() <==> a.spec_multicast_scope() == Some(Ipv6MulticastScope::Global),
        a.spec_is_global() <==> a.segments[0] % 16 == 14,
{
}

/// An address of either family is global exactly when the address it holds
/// is global as an address of its own family.
pub proof fn lemma_either_family_agrees(addr: IpAddr)
    ensures
        addr matches IpAddr::V4(ip) ==> addr.spec_is_global() == ip.spec_is_global(),
        addr matches IpAddr::V6(ip) ==> addr.spec_is_global() == ip.spec_is_global(),
{
}

} // verus!
