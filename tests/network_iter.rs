use blinkscan::{ipv4_from_octets, Ipv4Net, NetworkIterator};

fn net(a: u8, b: u8, c: u8, d: u8, prefix: u8) -> Ipv4Net {
    Ipv4Net::new(ipv4_from_octets(a, b, c, d), prefix).unwrap()
}

#[test]
fn lib_should_iterate_over_empty_networks() {
    let mut iterator = NetworkIterator::new(&vec![]);

    assert_eq!(iterator.next(), None);
}

#[test]
fn lib_should_iterate_over_single_address() {
    let network_a = net(192, 168, 1, 1, 32);
    let target_network: Vec<Ipv4Net> = vec![network_a];

    let mut iterator = NetworkIterator::new(&target_network);

    assert_eq!(iterator.next(), Some(ipv4_from_octets(192, 168, 1, 1)));
    assert_eq!(iterator.next(), None);
}

#[test]
fn lib_should_iterate_over_multiple_address() {
    let network_a = net(192, 168, 1, 1, 24);
    let target_network: Vec<Ipv4Net> = vec![network_a];

    let mut iterator = NetworkIterator::new(&target_network);

    assert_eq!(iterator.next(), Some(ipv4_from_octets(192, 168, 1, 0)));
    assert_eq!(iterator.next(), Some(ipv4_from_octets(192, 168, 1, 1)));
    assert_eq!(iterator.next(), Some(ipv4_from_octets(192, 168, 1, 2)));
}

#[test]
fn lib_should_iterate_over_multiple_networks() {
    let network_a = net(192, 168, 1, 1, 32);
    let network_b = net(10, 10, 20, 20, 32);
    let target_network: Vec<Ipv4Net> = vec![network_a, network_b];

    let mut iterator = NetworkIterator::new(&target_network);

    assert_eq!(iterator.next(), Some(ipv4_from_octets(192, 168, 1, 1)));
    assert_eq!(iterator.next(), Some(ipv4_from_octets(10, 10, 20, 20)));
    assert_eq!(iterator.next(), None);
}

#[test]
fn lib_should_iterate_with_random() {
    let network_a = net(192, 168, 1, 1, 32);
    let network_b = net(10, 10, 20, 20, 32);
    let target_network: Vec<Ipv4Net> = vec![network_a, network_b];

    let mut iterator = NetworkIterator::new(&target_network);

    assert_eq!(iterator.next().is_some(), true);
    assert_eq!(iterator.next().is_some(), true);
    assert_eq!(iterator.next(), None);
}

#[test]
fn network_should_iterate_over_empty_networks() {
    let mut iterator = NetworkIterator::new(&vec![]);

    assert_eq!(iterator.next(), None);
}

#[test]
fn network_should_iterate_over_single_address() {
    let network_a = net(192, 168, 1, 1, 32);
    let target_network: Vec<Ipv4Net> = vec![network_a];

    let mut iterator = NetworkIterator::new(&target_network);

    assert_eq!(iterator.next(), Some(ipv4_from_octets(192, 168, 1, 1)));
    assert_eq!(iterator.next(), None);
}

#[test]
fn network_should_iterate_over_multiple_address() {
    let network_a = net(192, 168, 1, 1, 24);
    let target_network: Vec<Ipv4Net> = vec![network_a];

    let mut iterator = NetworkIterator::new(&target_network);

    assert_eq!(iterator.next(), Some(ipv4_from_octets(192, 168, 1, 0)));
    assert_eq!(iterator.next(), Some(ipv4_from_octets(192, 168, 1, 1)));
    assert_eq!(iterator.next(), Some(ipv4_from_octets(192, 168, 1, 2)));
}

#[test]
fn network_should_iterate_over_multiple_networks() {
    let network_a = net(192, 168, 1, 1, 32);
    let network_b = net(10, 10, 20, 20, 32);
    let target_network: Vec<Ipv4Net> = vec![network_a, network_b];

    let mut iterator = NetworkIterator::new(&target_network);

    assert_eq!(iterator.next(), Some(ipv4_from_octets(192, 168, 1, 1)));
    assert_eq!(iterator.next(), Some(ipv4_from_octets(10, 10, 20, 20)));
    assert_eq!(iterator.next(), None);
}

#[test]
fn network_should_iterate_with_random() {
    let network_a = net(192, 168, 1, 1, 32);
    let network_b = net(10, 10, 20, 20, 32);
    let target_network: Vec<Ipv4Net> = vec![network_a, network_b];

    let mut iterator = NetworkIterator::new(&target_network);

    assert_eq!(iterator.next().is_some(), true);
    assert_eq!(iterator.next().is_some(), true);
    assert_eq!(iterator.next(), None);
}

#[test]
fn slash24_yields_256_ascending_addresses() {
    let target_network = vec![net(192, 168, 1, 77, 24)];
    let mut iterator = NetworkIterator::new(&target_network);
    let mut seen: Vec<u32> = Vec::new();
    while let Some(a) = iterator.next() {
        seen.push(a);
    }
    assert_eq!(seen.len(), 256);
    assert_eq!(seen[0], ipv4_from_octets(192, 168, 1, 0));
    assert_eq!(seen[255], ipv4_from_octets(192, 168, 1, 255));
    for k in 1..seen.len() {
        assert!(seen[k - 1] < seen[k]);
    }
}

#[test]
fn ranges_are_drained_in_input_order() {
    let target_network = vec![net(10, 0, 0, 9, 30), net(192, 168, 0, 1, 31)];
    let mut iterator = NetworkIterator::new(&target_network);
    let mut seen: Vec<u32> = Vec::new();
    while let Some(a) = iterator.next() {
        seen.push(a);
    }
    assert_eq!(
        seen,
        vec![
            ipv4_from_octets(10, 0, 0, 8),
            ipv4_from_octets(10, 0, 0, 9),
            ipv4_from_octets(10, 0, 0, 10),
            ipv4_from_octets(10, 0, 0, 11),
            ipv4_from_octets(192, 168, 0, 0),
            ipv4_from_octets(192, 168, 0, 1),
        ]
    );
    assert_eq!(iterator.next(), None);
}

#[test]
fn len_counts_the_active_range_only() {
    let target_network = vec![net(10, 0, 0, 0, 30), net(10, 0, 1, 0, 30)];
    let mut iterator = NetworkIterator::new(&target_network);
    assert_eq!(iterator.len(), 0);
    iterator.next();
    assert_eq!(iterator.len(), 3);
    iterator.next();
    assert_eq!(iterator.len(), 2);
    iterator.next();
    iterator.next();
    assert_eq!(iterator.len(), 0);
    assert_eq!(iterator.next(), Some(ipv4_from_octets(10, 0, 1, 0)));
    assert_eq!(iterator.len(), 3);
}

#[test]
fn prefix_over_32_is_rejected() {
    assert!(Ipv4Net::new(ipv4_from_octets(10, 0, 0, 1), 33).is_none());
}

#[test]
fn network_and_broadcast_of_a_block() {
    let n = net(10, 1, 9, 32, 16);
    assert_eq!(n.network(), ipv4_from_octets(10, 1, 0, 0));
    assert_eq!(n.broadcast(), ipv4_from_octets(10, 1, 255, 255));
    assert_eq!(n.mask(), ipv4_from_octets(255, 255, 0, 0));
    let all = net(1, 2, 3, 4, 0);
    assert_eq!(all.network(), 0);
    assert_eq!(all.broadcast(), u32::MAX);
}

#[test]
fn dotted_decimal_text() {
    assert_eq!(blinkscan::ipv4_to_string(ipv4_from_octets(192, 0, 2, 5)), "192.0.2.5");
    assert_eq!(blinkscan::ipv4_to_string(ipv4_from_octets(0, 10, 100, 255)), "0.10.100.255");
}
