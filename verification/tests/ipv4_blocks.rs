use ipext::{Ipv4Addr, Ipv4AddrExt};

#[test]
fn new_keeps_the_octets_in_order() {
    let a = Ipv4Addr::new(1, 2, 3, 4);
    assert_eq!(a.octets(), [1, 2, 3, 4]);
    assert_eq!(a.octets, [1, 2, 3, 4]);
}

#[test]
fn to_bits_puts_the_first_octet_highest() {
    assert_eq!(Ipv4Addr::new(18, 52, 86, 120).to_bits(), 0x1234_5678);
    assert_eq!(Ipv4Addr::new(192, 0, 0, 9).to_bits(), 0xc000_0009);
    assert_eq!(Ipv4Addr::new(0, 0, 0, 0).to_bits(), 0);
    assert_eq!(Ipv4Addr::new(255, 255, 255, 255).to_bits(), 0xffff_ffff);
    assert_eq!(Ipv4Addr::new(0, 0, 1, 0).to_bits(), 256);
}

#[test]
fn private_blocks_and_their_edges() {
    assert!(Ipv4Addr::new(10, 0, 0, 0).is_private());
    assert!(Ipv4Addr::new(10, 255, 255, 255).is_private());
    assert!(!Ipv4Addr::new(9, 255, 255, 255).is_private());
    assert!(!Ipv4Addr::new(11, 0, 0, 0).is_private());
    assert!(Ipv4Addr::new(172, 16, 0, 0).is_private());
    assert!(Ipv4Addr::new(172, 31, 255, 255).is_private());
    assert!(!Ipv4Addr::new(172, 15, 255, 255).is_private());
    assert!(!Ipv4Addr::new(172, 32, 0, 0).is_private());
    assert!(Ipv4Addr::new(192, 168, 0, 1).is_private());
    assert!(!Ipv4Addr::new(192, 169, 0, 1).is_private());
    assert!(!Ipv4Addr::new(193, 168, 0, 1).is_private());
}

#[test]
fn loopback_is_the_whole_of_127() {
    assert!(Ipv4Addr::new(127, 0, 0, 1).is_loopback());
    assert!(Ipv4Addr::new(127, 255, 255, 255).is_loopback());
    assert!(!Ipv4Addr::new(126, 0, 0, 1).is_loopback());
    assert!(!Ipv4Addr::new(128, 0, 0, 1).is_loopback());
}

#[test]
fn link_local_is_169_254() {
    assert!(Ipv4Addr::new(169, 254, 0, 0).is_link_local());
    assert!(Ipv4Addr::new(169, 254, 255, 255).is_link_local());
    assert!(!Ipv4Addr::new(169, 253, 0, 0).is_link_local());
    assert!(!Ipv4Addr::new(169, 255, 0, 0).is_link_local());
    assert!(!Ipv4Addr::new(170, 254, 0, 0).is_link_local());
}

#[test]
fn broadcast_is_one_address() {
    assert!(Ipv4Addr::new(255, 255, 255, 255).is_broadcast());
    assert!(!Ipv4Addr::new(255, 255, 255, 254).is_broadcast());
    assert!(!Ipv4Addr::new(255, 255, 254, 255).is_broadcast());
    assert!(!Ipv4Addr::new(255, 254, 255, 255).is_broadcast());
    assert!(!Ipv4Addr::new(254, 255, 255, 255).is_broadcast());
}

#[test]
fn documentation_blocks() {
    assert!(Ipv4Addr::new(192, 0, 2, 0).is_documentation());
    assert!(Ipv4Addr::new(192, 0, 2, 255).is_documentation());
    assert!(Ipv4Addr::new(198, 51, 100, 7).is_documentation());
    assert!(Ipv4Addr::new(203, 0, 113, 7).is_documentation());
    assert!(!Ipv4Addr::new(192, 0, 3, 0).is_documentation());
    assert!(!Ipv4Addr::new(198, 51, 101, 7).is_documentation());
    assert!(!Ipv4Addr::new(203, 0, 114, 7).is_documentation());
    assert!(!Ipv4Addr::new(203, 1, 113, 7).is_documentation());
}

#[test]
fn shared_block_boundaries() {
    assert!(Ipv4Addr::new(100, 64, 0, 0).is_shared());
    assert!(!Ipv4Addr::new(100, 128, 0, 0).is_shared());
    assert!(!Ipv4Addr::new(100, 63, 255, 255).is_shared());
    assert!(Ipv4Addr::new(100, 127, 255, 255).is_shared());
    assert!(!Ipv4Addr::new(101, 64, 0, 0).is_shared());
    assert!(!Ipv4Addr::new(99, 64, 0, 0).is_shared());
    assert!(!Ipv4Addr::new(100, 192, 0, 0).is_shared());
    assert!(!Ipv4Addr::new(100, 0, 0, 0).is_shared());
}

#[test]
fn ietf_protocol_assignment_block() {
    assert!(Ipv4Addr::new(192, 0, 0, 5).is_ietf_protocol_assignment());
    assert!(!Ipv4Addr::new(192, 0, 1, 5).is_ietf_protocol_assignment());
    assert!(Ipv4Addr::new(192, 0, 0, 0).is_ietf_protocol_assignment());
    assert!(Ipv4Addr::new(192, 0, 0, 255).is_ietf_protocol_assignment());
    assert!(!Ipv4Addr::new(192, 1, 0, 5).is_ietf_protocol_assignment());
    assert!(!Ipv4Addr::new(191, 0, 0, 5).is_ietf_protocol_assignment());
}

#[test]
fn reserved_leaves_out_broadcast() {
    assert!(!Ipv4Addr::new(255, 255, 255, 255).is_reserved());
    assert!(Ipv4Addr::new(240, 0, 0, 1).is_reserved());
    assert!(Ipv4Addr::new(240, 0, 0, 0).is_reserved());
    assert!(Ipv4Addr::new(255, 255, 255, 254).is_reserved());
    assert!(Ipv4Addr::new(250, 1, 2, 3).is_reserved());
    assert!(!Ipv4Addr::new(239, 255, 255, 255).is_reserved());
    assert!(!Ipv4Addr::new(224, 0, 0, 1).is_reserved());
    assert!(!Ipv4Addr::new(15, 0, 0, 1).is_reserved());
}

#[test]
fn benchmarking_block_boundaries() {
    assert!(Ipv4Addr::new(198, 18, 0, 1).is_benchmarking());
    assert!(Ipv4Addr::new(198, 19, 255, 255).is_benchmarking());
    assert!(!Ipv4Addr::new(198, 20, 0, 0).is_benchmarking());
    assert!(!Ipv4Addr::new(198, 17, 255, 255).is_benchmarking());
    assert!(!Ipv4Addr::new(199, 18, 0, 1).is_benchmarking());
    assert!(!Ipv4Addr::new(197, 19, 0, 1).is_benchmarking());
}
