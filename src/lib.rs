//! Discovery of live hosts on a local IPv4 segment by ARP.
//!
//! The library holds the scan engine: enumeration of address ranges, the
//! ARP request and reply frames, the collector that aggregates replies, the
//! vendor and hostname resolvers, and the orchestration of a scan as a state
//! machine. Opening link-layer channels, threads and sleeping are left to the
//! caller, which performs the actions that the state machines ask for.

pub mod addr;
pub mod arp;
pub mod collector;
pub mod error;
pub mod hostname;
pub mod interface;
pub mod mac;
pub mod network_iter;
pub mod scan;
pub mod text_order;
pub mod vendor;

pub use addr::{ipv4_from_octets, ipv4_to_string, Ipv4Net};
pub use arp::{build_arp_request, decode_arp, ArpReply};
pub use collector::{
    Collector, CollectorPhase, LoopAction, ReceiveEvent, ResponseSummary, TargetDetails, DATALINK_RCV_TIMEOUT,
};
pub use error::ScanError;
pub use hostname::{find_hostname, lookup_hostname, normalize_hostname};
pub use interface::{
    contains_str, find_source_ip, get_interfaces, ipv4_networks, is_default_interface, mentions_bluetooth,
    InterfaceInfo, IpNet, SelectInterface,
};
pub use mac::MacAddress;
pub use network_iter::NetworkIterator;
pub use scan::{finish_scan, select_interface, to_host, Host, ScanAction, ScanDriver, ScanPhase};
pub use text_order::str_le;
pub use vendor::{Vendor, VendorRow};
