//! The special-purpose IPv4 blocks that the address type itself does not
//! name: shared address space, IETF protocol assignments, the reserved
//! range and the benchmarking block.

use crate::addr::Ipv4Addr;
use vstd::prelude::*;

verus! {

/// Membership of an IPv4 address in further special-purpose blocks.
pub trait Ipv4AddrExt {
    /// The address lies in 100.64.0.0/10.
    spec fn spec_is_shared(&self) -> bool;

    /// The address lies in 192.0.0.0/24.
    spec fn spec_is_ietf_protocol_assignment(&self) -> bool;

    /// The address lies in 240.0.0.0/4 and is not 255.255.255.255.
    spec fn spec_is_reserved(&self) -> bool;

    /// The address lies in 198.18.0.0/15.
    spec fn spec_is_benchmarking(&self) -> bool;

    /// Whether the address belongs to the shared address space used by
    /// carrier-grade NAT.
    fn is_shared(&self) -> (r: bool)
        ensures
            r == self.spec_is_shared(),
    ;

    /// Whether the address belongs to the block of IETF protocol
    /// assignments.
    fn is_ietf_protocol_assignment(&self) -> (r: bool)
        ensures
            r == self.spec_is_ietf_protocol_assignment(),
    ;

    /// Whether the address is reserved for future use. The broadcast
    /// address is a category of its own and does not count.
    fn is_reserved(&self) -> (r: bool)
        ensures
            r == self.spec_is_reserved(),
    ;

    /// Whether the address belongs to the block used for benchmarking
    /// network devices.
    fn is_benchmarking(&self) -> (r: bool)
        ensures
            r == self.spec_is_benchmarking(),
    ;
}

impl Ipv4AddrExt for Ipv4Addr {
    open spec fn spec_is_shared(&self) -> bool {
        self.octets[0] == 100 && 64 <= self.octets[1] <= 127
    }

    open spec fn spec_is_ietf_protocol_assignment(&self) -> bool {
        self.octets[0] == 192 && self.octets[1] == 0 && self.octets[2] == 0
    }

    open spec fn spec_is_reserved(&self) -> bool {
        self.octets[0] >= 240 && !self.spec_is_broadcast()
    }

    open spec fn spec_is_benchmarking(&self) -> bool {
        self.octets[0] == 198 && (self.octets[1] == 18 || self.octets[1] == 19)
    }

    fn is_shared(&self) -> (r: bool) {
        let b: u8 = self.octets()[1];
        assert((b & 0b1100_0000 == 0b0100_0000) == (64 <= b && b <= 127)) by (bit_vector);
        self.octets()[0] == 100 && (b & 0b1100_0000 == 0b0100_0000)
    }

    fn is_ietf_protocol_assignment(&self) -> (r: bool) {
        self.octets()[0] == 192 && self.octets()[1] == 0 && self.octets()[2] == 0
    }

    fn is_reserved(&self) -> (r: bool) {
        let a: u8 = self.octets()[0];
        assert((a & 240 == 240) == (a >= 240)) by (bit_vector);
        a & 240 == 240 && !self.is_broadcast()
    }

    fn is_benchmarking(&self) -> (r: bool) {
        let b: u8 = self.octets()[1];
        assert((b & 0xfe == 18) == (b == 18 || b == 19)) by (bit_vector);
        self.octets()[0] == 198 && (b & 0xfe) == 18
    }
}

} // verus!
