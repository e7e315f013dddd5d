use std::collections::HashMap;

use blinkscan::{
    finish_scan, ipv4_from_octets, Collector, CollectorPhase, LoopAction, MacAddress, ReceiveEvent, Vendor,
};

fn arp_reply(sender_mac: [u8; 6], sender_ip: [u8; 4]) -> Vec<u8> {
    let mut f: Vec<u8> = Vec::new();
    f.extend_from_slice(&[0x02, 0x00, 0x00, 0x00, 0x00, 0x01]);
    f.extend_from_slice(&sender_mac);
    f.extend_from_slice(&[0x08, 0x06, 0x00, 0x01, 0x08, 0x00, 6, 4, 0x00, 0x02]);
    f.extend_from_slice(&sender_mac);
    f.extend_from_slice(&sender_ip);
    f.extend_from_slice(&[0x02, 0x00, 0x00, 0x00, 0x00, 0x01]);
    f.extend_from_slice(&[192, 0, 2, 1]);
    f
}

#[test]
fn single_reply_then_stop_yields_one_host() {
    let vendor = Vendor::new(b"Registry,Assignment,Organization Name\nMA-L,001122,Example Corp\n");
    let mut collector = Collector::new();
    let frame = arp_reply([0x00, 0x11, 0x22, 0x33, 0x44, 0x55], [192, 0, 2, 5]);
    assert_eq!(collector.on_event(ReceiveEvent::Frame(frame)), LoopAction::Receive);
    assert_eq!(collector.on_event(ReceiveEvent::Stop), LoopAction::Finish);
    assert_eq!(collector.phase(), CollectorPhase::Draining);

    let (summary, details) = collector.finalize_with_lookups(&HashMap::new(), &vendor, 7);
    assert_eq!(summary.packet_count, 1);
    assert_eq!(summary.arp_count, 1);
    assert_eq!(summary.duration_ms, 7);
    assert_eq!(details.len(), 1);
    assert_eq!(details[0].ipv4, ipv4_from_octets(192, 0, 2, 5));
    assert_eq!(details[0].mac, MacAddress::new(0x00, 0x11, 0x22, 0x33, 0x44, 0x55));
    assert_eq!(details[0].hostname, None);
    assert_eq!(details[0].vendor, Some("Example Corp".to_string()));

    let hosts = finish_scan(&details);
    assert_eq!(hosts.len(), 1);
    assert_eq!(hosts[0].host, "192.0.2.5");
    assert_eq!(hosts[0].mac, "00:11:22:33:44:55");
    assert_eq!(hosts[0].hostname, "");
    assert_eq!(hosts[0].vendor, "Example Corp");
}

#[test]
fn later_reply_overwrites_the_mac_of_an_address() {
    let mut collector = Collector::new();
    let a = arp_reply([0x00, 0x00, 0x00, 0x00, 0x00, 0x0a], [192, 168, 1, 7]);
    let b = arp_reply([0x00, 0x00, 0x00, 0x00, 0x00, 0x0b], [192, 168, 1, 7]);
    collector.on_event(ReceiveEvent::Frame(a));
    collector.on_event(ReceiveEvent::Frame(b));
    collector.on_event(ReceiveEvent::Stop);
    let (summary, details) = collector.finalize_with_lookups(&HashMap::new(), &Vendor::unavailable(), 0);
    assert_eq!(summary.arp_count, 2);
    assert_eq!(details.len(), 1);
    assert_eq!(details[0].ipv4, ipv4_from_octets(192, 168, 1, 7));
    assert_eq!(details[0].mac, MacAddress::new(0, 0, 0, 0, 0, 0x0b));
}

#[test]
fn non_arp_and_short_frames_count_as_packets_only() {
    let mut collector = Collector::new();
    let mut ipv4_frame = arp_reply([0, 1, 2, 3, 4, 5], [10, 0, 0, 1]);
    ipv4_frame[13] = 0x00;
    collector.on_event(ReceiveEvent::Frame(ipv4_frame));
    collector.on_event(ReceiveEvent::Frame(vec![0u8; 8]));
    let mut truncated = arp_reply([0, 1, 2, 3, 4, 5], [10, 0, 0, 1]);
    truncated.truncate(30);
    collector.on_event(ReceiveEvent::Frame(truncated));
    assert_eq!(collector.packet_count(), 3);
    assert_eq!(collector.arp_count(), 0);
}

#[test]
fn timeouts_keep_the_loop_running() {
    let mut collector = Collector::new();
    assert_eq!(collector.on_event(ReceiveEvent::TimedOut), LoopAction::Receive);
    assert_eq!(collector.phase(), CollectorPhase::Running);
    assert_eq!(collector.packet_count(), 0);
}

#[test]
fn other_receive_errors_abort_the_loop() {
    let mut collector = Collector::new();
    collector.on_event(ReceiveEvent::Frame(arp_reply([0, 1, 2, 3, 4, 5], [10, 0, 0, 1])));
    assert_eq!(collector.on_event(ReceiveEvent::Failed), LoopAction::Abort);
    assert_eq!(collector.phase(), CollectorPhase::Aborted);
}

#[test]
fn each_address_gets_one_record_with_its_lookup() {
    let mut collector = Collector::new();
    collector.on_event(ReceiveEvent::Frame(arp_reply([0, 0, 0, 0, 0, 2], [10, 0, 0, 2])));
    collector.on_event(ReceiveEvent::Frame(arp_reply([0, 0, 0, 0, 0, 1], [10, 0, 0, 1])));
    collector.on_event(ReceiveEvent::Frame(arp_reply([0, 0, 0, 0, 0, 3], [10, 0, 0, 2])));
    collector.on_event(ReceiveEvent::Stop);
    let mut lookups: HashMap<u32, String> = HashMap::new();
    lookups.insert(ipv4_from_octets(10, 0, 0, 2), "ten-two".to_string());
    lookups.insert(ipv4_from_octets(10, 0, 0, 1), "10.0.0.1".to_string());
    let (_, mut details) = collector.finalize_with_lookups(&lookups, &Vendor::unavailable(), 0);
    details.sort_by_key(|d| d.ipv4);
    assert_eq!(details.len(), 2);
    assert_eq!(details[0].ipv4, ipv4_from_octets(10, 0, 0, 1));
    assert_eq!(details[0].hostname, None);
    assert_eq!(details[0].vendor, None);
    assert_eq!(details[1].ipv4, ipv4_from_octets(10, 0, 0, 2));
    assert_eq!(details[1].mac, MacAddress::new(0, 0, 0, 0, 0, 3));
    assert_eq!(details[1].hostname, Some("ten-two".to_string()));
}
