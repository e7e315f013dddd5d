use blinkscan::{find_hostname, ipv4_from_octets, normalize_hostname};

#[test]
fn lib_should_resolve_localhost() {
    let ipv4 = ipv4_from_octets(127, 0, 0, 1);

    assert_eq!(find_hostname(ipv4), Some("localhost".to_string()));
}

#[test]
fn lib_should_not_resolve_unknown_ip() {
    let ipv4 = ipv4_from_octets(10, 254, 254, 254);

    assert_eq!(find_hostname(ipv4), None);
}

#[test]
fn echoed_address_is_normalized_away() {
    let ipv4 = ipv4_from_octets(192, 0, 2, 5);
    assert_eq!(normalize_hostname(ipv4, Some("192.0.2.5".to_string())), None);
}

#[test]
fn failed_lookup_gives_no_hostname() {
    assert_eq!(normalize_hostname(ipv4_from_octets(192, 0, 2, 5), None), None);
}

#[test]
fn real_name_is_kept() {
    let ipv4 = ipv4_from_octets(192, 0, 2, 5);
    assert_eq!(normalize_hostname(ipv4, Some("printer.lan".to_string())), Some("printer.lan".to_string()));
    assert_eq!(normalize_hostname(ipv4, Some("192.0.2.50".to_string())), Some("192.0.2.50".to_string()));
}
