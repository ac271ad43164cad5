//! Classification of IPv4 and IPv6 addresses into the special-purpose
//! blocks of the IANA registries, and the question they serve: is an
//! address reachable on the public internet?

pub mod addr;
pub mod ip;
pub mod ipv4;
pub mod ipv6;

pub use addr::{IpAddr, Ipv4Addr, Ipv6Addr};
pub use ip::IpExt;
pub use ipv4::Ipv4AddrExt;
pub use ipv6::{Ipv6AddrExt, Ipv6MulticastScope};
