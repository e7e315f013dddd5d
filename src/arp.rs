//! ARP over Ethernet: the broadcast request that a scan sends and the
//! sender fields read back from any ARP frame received.

use vstd::prelude::*;

use crate::addr::octets_value;
use crate::mac::{mac_octets, MacAddress};

verus! {

/// Size of an Ethernet header.
pub const ETHERNET_HEADER_SIZE: usize = 14;

/// Size of an ARP payload for Ethernet and IPv4.
pub const ARP_PACKET_SIZE: usize = 28;

/// Size of a whole request frame: header and payload.
pub const ETHERNET_STD_PACKET_SIZE: usize = 42;

/// The four octets of an address, most significant first.
pub open spec fn ipv4_octets(ip: u32) -> Seq<u8> {
    seq![
        (ip / 0x100_0000) as u8,
        ((ip / 0x1_0000) % 0x100) as u8,
        ((ip / 0x100) % 0x100) as u8,
        (ip % 0x100) as u8,
    ]
}

/// The broadcast MAC address as octets.
pub open spec fn broadcast_octets() -> Seq<u8> {
    seq![0xffu8, 0xff, 0xff, 0xff, 0xff, 0xff]
}

/// The request frame that asks, from `source_mac` and `source_ip`, who holds
/// `target_ip`. Ethernet header: broadcast destination, the source MAC,
/// ethertype ARP (0x0806). ARP payload: hardware type Ethernet (1), protocol
/// type IPv4 (0x0800), lengths 6 and 4, operation request (1), sender MAC and
/// IPv4, then the broadcast MAC as target hardware address and the target
/// IPv4.
pub open spec fn arp_request_frame(source_mac: MacAddress, source_ip: u32, target_ip: u32) -> Seq<u8> {
    broadcast_octets() + mac_octets(source_mac) + seq![0x08u8, 0x06] + seq![0x00u8, 0x01]
        + seq![0x08u8, 0x00] + seq![6u8, 4u8] + seq![0x00u8, 0x01] + mac_octets(source_mac)
        + ipv4_octets(source_ip) + broadcast_octets() + ipv4_octets(target_ip)
}

/// The sender of an ARP frame: its IPv4 and MAC addresses.
#[derive(Clone, Copy, Debug, PartialEq, Eq, Structural)]
pub struct ArpReply {
    pub sender_ipv4: u32,
    pub sender_mac: MacAddress,
}

/// Whether a frame is an Ethernet frame of type ARP long enough to hold a
/// whole ARP payload.
pub open spec fn is_arp_frame(frame: Seq<u8>) -> bool {
    frame.len() >= 42 && frame[12] == 0x08 && frame[13] == 0x06
}

/// The sender fields of an ARP frame, or `None` for any other frame.
pub open spec fn arp_sender(frame: Seq<u8>) -> Option<ArpReply> {
    if is_arp_frame(frame) {
        Some(
            ArpReply {
                sender_ipv4: octets_value(frame[28], frame[29], frame[30], frame[31]),
                sender_mac: MacAddress(frame[22], frame[23], frame[24], frame[25], frame[26], frame[27]),
            },
        )
    } else {
        None
    }
}

fn push_mac(v: &mut Vec<u8>, m: &MacAddress)
    ensures
        final(v)@ == old(v)@ + mac_octets(*m),
{
    v.push(m.0);
    v.push(m.1);
    v.push(m.2);
    v.push(m.3);
    v.push(m.4);
    v.push(m.5);
    assert(v@ =~= old(v)@ + mac_octets(*m));
}

fn push_ipv4(v: &mut Vec<u8>, ip: u32)
    ensures
        final(v)@ == old(v)@ + ipv4_octets(ip),
{
    v.push((ip / 0x100_0000) as u8);
    v.push(((ip / 0x1_0000) % 0x100) as u8);
    v.push(((ip / 0x100) % 0x100) as u8);
    v.push((ip % 0x100) as u8);
    assert(v@ =~= old(v)@ + ipv4_octets(ip));
}

/// The broadcast ARP request for `target_ip`, sent from `source_mac` and
/// `source_ip`.
pub fn build_arp_request(source_mac: &MacAddress, source_ip: u32, target_ip: u32) -> (r: Vec<u8>)
    ensures
        r@ == arp_request_frame(*source_mac, source_ip, target_ip),
        r@.len() == ETHERNET_STD_PACKET_SIZE,
{
    let broadcast = MacAddress::broadcast();
    let mut v: Vec<u8> = Vec::with_capacity(ETHERNET_STD_PACKET_SIZE);
    push_mac(&mut v, &broadcast);
    push_mac(&mut v, source_mac);
    v.push(0x08);
    v.push(0x06);
    v.push(0x00);
    v.push(0x01);
    v.push(0x08);
    v.push(0x00);
    v.push(6);
    v.push(4);
    v.push(0x00);
    v.push(0x01);
    push_mac(&mut v, source_mac);
    push_ipv4(&mut v, source_ip);
    push_mac(&mut v, &broadcast);
    push_ipv4(&mut v, target_ip);
    assert(v@ =~= arp_request_frame(*source_mac, source_ip, target_ip));
    v
}

/// The sender of a received frame when it is an ARP frame; `None` for a
/// frame too short for an Ethernet header, of another ethertype, or too
/// short for its ARP payload.
pub fn decode_arp(frame: &[u8]) -> (r: Option<ArpReply>)
    ensures
        r == arp_sender(frame@),
{
    if frame.len() < ETHERNET_HEADER_SIZE {
        return None;
    }
    if frame[12] != 0x08 || frame[13] != 0x06 {
        return None;
    }
    if frame.len() - ETHERNET_HEADER_SIZE < ARP_PACKET_SIZE {
        return None;
    }
    let ip = (frame[28] as u32) * 0x100_0000 + (frame[29] as u32) * 0x1_0000 + (frame[30] as u32) * 0x100
        + (frame[31] as u32);
    let mac = MacAddress(frame[22], frame[23], frame[24], frame[25], frame[26], frame[27]);
    Some(ArpReply { sender_ipv4: ip, sender_mac: mac })
}

/// The four octets of an address give the address back.
proof fn lemma_ipv4_octets_value(ip: u32)
    ensures
        octets_value(ipv4_octets(ip)[0], ipv4_octets(ip)[1], ipv4_octets(ip)[2], ipv4_octets(ip)[3]) == ip,
{
    let a = ip / 0x100_0000;
    let b = (ip / 0x1_0000) % 0x100;
    let c = (ip / 0x100) % 0x100;
    let d = ip % 0x100;
    assert(a * 0x100_0000 + b * 0x1_0000 + c * 0x100 + d == ip) by (nonlinear_arith)
        requires
            a == ip / 0x100_0000,
            b == (ip / 0x1_0000) % 0x100,
            c == (ip / 0x100) % 0x100,
            d == ip % 0x100,
    ;
}

/// A request frame read back as an ARP frame gives its sender: the MAC
/// and IPv4 address it was built from.
pub proof fn lemma_request_decodes_to_sender(source_mac: MacAddress, source_ip: u32, target_ip: u32)
    ensures
        arp_sender(arp_request_frame(source_mac, source_ip, target_ip)) == Some(
            ArpReply { sender_ipv4: source_ip, sender_mac: source_mac },
        ),
{
    let f = arp_request_frame(source_mac, source_ip, target_ip);
    lemma_ipv4_octets_value(source_ip);
    assert(f[12] == 0x08 && f[13] == 0x06);
    assert(f[22] == source_mac.0 && f[23] == source_mac.1 && f[24] == source_mac.2);
    assert(f[25] == source_mac.3 && f[26] == source_mac.4 && f[27] == source_mac.5);
    assert(f[28] == ipv4_octets(source_ip)[0] && f[29] == ipv4_octets(source_ip)[1]);
    assert(f[30] == ipv4_octets(source_ip)[2] && f[31] == ipv4_octets(source_ip)[3]);
}

} // verus!
