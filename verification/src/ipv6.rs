//! The special-purpose IPv6 blocks, and the scope of a multicast address.

use crate::addr::Ipv6Addr;
use vstd::prelude::*;

verus! {

/// How far a multicast group reaches, as named by the scope field of a
/// multicast address.
#[derive(Clone, Copy, Debug, PartialEq, Eq, Hash)]
pub enum Ipv6MulticastScope {
    InterfaceLocal,
    LinkLocal,
    RealmLocal,
    AdminLocal,
    SiteLocal,
    OrganizationLocal,
    Global,
}

/// The scope that a value of the 4-bit scope field stands for. The values
/// 0, 6, 7, 9 to 13 and 15 stand for none.
pub open spec fn scope_of_field(field: int) -> Option<Ipv6MulticastScope> {
    if field == 1 {
        Some(Ipv6MulticastScope::InterfaceLocal)
    } else if field == 2 {
        Some(Ipv6MulticastScope::LinkLocal)
    } else if field == 3 {
        Some(Ipv6MulticastScope::RealmLocal)
    } else if field == 4 {
        Some(Ipv6MulticastScope::AdminLocal)
    } else if field == 5 {
        Some(Ipv6MulticastScope::SiteLocal)
    } else if field == 8 {
        Some(Ipv6MulticastScope::OrganizationLocal)
    } else if field == 14 {
        Some(Ipv6MulticastScope::Global)
    } else {
        None
    }
}

/// Membership of an IPv6 address in special-purpose blocks.
pub trait Ipv6AddrExt {
    /// The scope named by the low four bits of the first segment of a
    /// multicast address; `None` for any other address.
    spec fn spec_multicast_scope(&self) -> Option<Ipv6MulticastScope>;

    /// The address lies in fe80::/10.
    spec fn spec_is_unicast_link_local(&self) -> bool;

    /// The address lies in fc00::/7.
    spec fn spec_is_unique_local(&self) -> bool;

    /// The address lies in none of: the multicast block, the link-local
    /// block, the unique local block, the documentation block; and is
    /// neither the loopback nor the unspecified address.
    spec fn spec_is_unicast_global(&self) -> bool;

    /// The address lies in 2001:db8::/32.
    spec fn spec_is_documentation(&self) -> bool;

    /// The scope of a multicast address. `None` if the address is not
    /// multicast, or if its scope field holds a value that names no scope.
    fn multicast_scope(&self) -> (r: Option<Ipv6MulticastScope>)
        ensures
            r == self.spec_multicast_scope(),
    ;

    /// Whether the address is a link-local unicast address.
    fn is_unicast_link_local(&self) -> (r: bool)
        ensures
            r == self.spec_is_unicast_link_local(),
    ;

    /// Whether the address is a unique local address.
    fn is_unique_local(&self) -> (r: bool)
        ensures
            r == self.spec_is_unique_local(),
    ;

    /// Whether the address is a unicast address that no special-purpose
    /// block claims.
    fn is_unicast_global(&self) -> (r: bool)
        ensures
            r == self.spec_is_unicast_global(),
    ;

    /// Whether the address lies in the block set aside for documentation.
    fn is_documentation(&self) -> (r: bool)
        ensures
            r == self.spec_is_documentation(),
    ;
}

impl Ipv6AddrExt for Ipv6Addr {
    open spec fn spec_multicast_scope(&self) -> Option<Ipv6MulticastScope> {
        if self.spec_is_multicast() {
            scope_of_field((self.segments[0] % 16) as int)
        } else {
            None
        }
    }

    open spec fn spec_is_unicast_link_local(&self) -> bool {
        0xfe80 <= self.segments[0] <= 0xfebf
    }

    open spec fn spec_is_unique_local(&self) -> bool {
        0xfc00 <= self.segments[0] <= 0xfdff
    }

    open spec fn spec_is_unicast_global(&self) -> bool {
        &&& !self.spec_is_multicast()
        &&& !self.spec_is_loopback()
        &&& !self.spec_is_unicast_link_local()
        &&& !self.spec_is_unique_local()
        &&& !self.spec_is_unspecified()
        &&& !self.spec_is_documentation()
    }

    open spec fn spec_is_documentation(&self) -> bool {
        self.segments[0] == 0x2001 && self.segments[1] == 0x0db8
    }

    fn multicast_scope(&self) -> (r: Option<Ipv6MulticastScope>) {
        if self.is_multicast() {
            let s: u16 = self.segments()[0];
            assert(s & 0x000f == s % 16) by (bit_vector);
            match s & 0x000f {
                1 => Some(Ipv6MulticastScope::InterfaceLocal),
                2 => Some(Ipv6MulticastScope::LinkLocal),
                3 => Some(Ipv6MulticastScope::RealmLocal),
                4 => Some(Ipv6MulticastScope::AdminLocal),
                5 => Some(Ipv6MulticastScope::SiteLocal),
                8 => Some(Ipv6MulticastScope::OrganizationLocal),
                14 => Some(Ipv6MulticastScope::Global),
                _ => None,
            }
        } else {
            None
        }
    }

    fn is_unicast_link_local(&self) -> (r: bool) {
        let s: u16 = self.segments()[0];
        assert((s & 0xffc0 == 0xfe80) == (0xfe80 <= s && s <= 0xfebf)) by (bit_vector);
        (s & 0xffc0) == 0xfe80
    }

    fn is_unique_local(&self) -> (r: bool) {
        let s: u16 = self.segments()[0];
        assert((s & 0xfe00 == 0xfc00) == (0xfc00 <= s && s <= 0xfdff)) by (bit_vector);
        (s & 0xfe00) == 0xfc00
    }

    fn is_unicast_global(&self) -> (r: bool) {
        !self.is_multicast() && !self.is_loopback() && !self.is_unicast_link_local()
            && !self.is_unique_local() && !self.is_unspecified() && !self.is_documentation()
    }

    fn is_documentation(&self) -> (r: bool) {
        (self.segments()[0] == 0x2001) && (self.segments()[1] == 0xdb8)
    }
}

} // verus!
