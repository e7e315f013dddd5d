//! Errors of a scan.

use vstd::prelude::*;

verus! {

/// Why a scan failed.
#[derive(Clone, Copy, Debug, PartialEq, Eq, Structural)]
pub enum ScanError {
    /// No interface has the index asked for.
    InterfaceNotFound,
    /// The interface has no MAC address to send requests from.
    NoMacAddress,
    /// The interface has no IPv4 address to send requests from.
    NoIpv4Address,
    /// The interface offers no Ethernet channel.
    NoEthernetChannel,
    /// A receive call failed with an error other than a timeout.
    ReceiveFailed,
    /// The collector thread ended abnormally.
    CollectorFailed,
}

impl ScanError {
    /// A sentence that describes the error.
    pub fn message(&self) -> (r: &'static str) {
        match self {
            ScanError::InterfaceNotFound => "interface not found",
            ScanError::NoMacAddress => "expected a MAC address on the interface",
            ScanError::NoIpv4Address => "expected an IPv4 address on the interface",
            ScanError::NoEthernetChannel => "expected an Ethernet datalink channel",
            ScanError::ReceiveFailed => "failed to receive ARP responses",
            ScanError::CollectorFailed => "the response collector ended abnormally",
        }
    }
}

} // verus!
