use blinkscan::{
    contains_str, find_source_ip, get_interfaces, ipv4_from_octets, is_default_interface, mentions_bluetooth,
    InterfaceInfo, IpNet, Ipv4Net, MacAddress, ScanError,
};

fn iface(name: &str, description: &str, index: u32, default: bool) -> InterfaceInfo {
    let net = Ipv4Net::new(ipv4_from_octets(10, 0, 0, index as u8), 24).unwrap();
    InterfaceInfo {
        name: name.to_string(),
        description: description.to_string(),
        index,
        mac: Some(MacAddress::new(2, 0, 0, 0, 0, index as u8)),
        ips: vec![IpNet::V4(net)],
        is_up: true,
        is_loopback: !default,
    }
}

#[test]
fn default_interface_needs_mac_ipv4_up_and_no_loopback() {
    let good = iface("eth0", "", 1, true);
    assert!(is_default_interface(&good));
    let mut no_mac = iface("eth0", "", 1, true);
    no_mac.mac = None;
    assert!(!is_default_interface(&no_mac));
    let mut down = iface("eth0", "", 1, true);
    down.is_up = false;
    assert!(!is_default_interface(&down));
    assert!(!is_default_interface(&iface("lo", "", 1, false)));
    let mut v6_only = iface("eth0", "", 1, true);
    v6_only.ips = vec![IpNet::V6];
    assert!(!is_default_interface(&v6_only));
    let mut none = iface("eth0", "", 1, true);
    none.ips = vec![];
    assert!(!is_default_interface(&none));
}

#[test]
fn offered_interfaces_skip_bluetooth_and_put_defaults_first() {
    let raw = vec![
        iface("lo", "", 1, false),
        iface("bt0", "Intel BlueTooth Adapter", 2, true),
        iface("eth0", "Ethernet", 3, true),
        iface("tun0", "Tunnel", 4, false),
        iface("wlan0", "", 5, true),
    ];
    let offered = get_interfaces(&raw);
    let names: Vec<(&str, u32)> = offered.iter().map(|s| (s.name.as_str(), s.index)).collect();
    assert_eq!(names, vec![("Ethernet", 3), ("wlan0", 5), ("lo", 1), ("Tunnel", 4)]);
}

#[test]
fn bluetooth_is_found_in_lowered_text() {
    assert!(mentions_bluetooth("my bluetooth pan"));
    assert!(!mentions_bluetooth("bluetoot h"));
    assert!(contains_str("abc", ""));
    assert!(!contains_str("ab", "abc"));
}

#[test]
fn source_ip_is_the_first_ipv4_address() {
    let mut i = iface("eth0", "", 1, true);
    let second = Ipv4Net::new(ipv4_from_octets(172, 16, 0, 9), 16).unwrap();
    i.ips = vec![IpNet::V6, IpNet::V4(second), IpNet::V4(Ipv4Net::new(1, 8).unwrap())];
    assert_eq!(find_source_ip(&i), Ok(ipv4_from_octets(172, 16, 0, 9)));
    i.ips = vec![IpNet::V6];
    assert_eq!(find_source_ip(&i), Err(ScanError::NoIpv4Address));
}
