use nat_engine::entry::{NatEntry, Protocol};

fn live_tcp_entry() -> NatEntry {
    let mut e = NatEntry::new();
    e.internal_ip = [192, 168, 4, 10];
    e.internal_port = 40000;
    e.external_ip = [203, 0, 113, 5];
    e.external_port = 50000;
    e.remote_ip = [8, 8, 8, 8];
    e.remote_port = 443;
    e.protocol = Protocol::Tcp;
    e.last_activity = 1000;
    e.in_use = true;
    e
}

#[test]
fn protocol_from_u8_maps_the_three_numbers() {
    assert_eq!(Protocol::from_u8(6), Some(Protocol::Tcp));
    assert_eq!(Protocol::from_u8(17), Some(Protocol::Udp));
    assert_eq!(Protocol::from_u8(1), Some(Protocol::Icmp));
    assert_eq!(Protocol::from_u8(0), None);
    assert_eq!(Protocol::from_u8(47), None);
    assert_eq!(Protocol::from_u8(255), None);
}

#[test]
fn new_entry_is_free() {
    let e = NatEntry::new();
    assert!(!e.in_use);
    assert_eq!(e.internal_port, 0);
    assert_eq!(e.external_port, 0);
    assert_eq!(e.internal_ip, [0, 0, 0, 0]);
}

#[test]
fn outbound_match_needs_full_tuple_for_tcp() {
    let e = live_tcp_entry();
    assert!(e.matches_outbound(&[192, 168, 4, 10], 40000, &[8, 8, 8, 8], 443, Protocol::Tcp));
    // Any differing component breaks the match.
    assert!(!e.matches_outbound(&[192, 168, 4, 11], 40000, &[8, 8, 8, 8], 443, Protocol::Tcp));
    assert!(!e.matches_outbound(&[192, 168, 4, 10], 40001, &[8, 8, 8, 8], 443, Protocol::Tcp));
    assert!(!e.matches_outbound(&[192, 168, 4, 10], 40000, &[8, 8, 4, 4], 443, Protocol::Tcp));
    assert!(!e.matches_outbound(&[192, 168, 4, 10], 40000, &[8, 8, 8, 8], 80, Protocol::Tcp));
    assert!(!e.matches_outbound(&[192, 168, 4, 10], 40000, &[8, 8, 8, 8], 443, Protocol::Udp));
}

#[test]
fn outbound_match_ignores_destination_port_for_icmp() {
    let mut e = live_tcp_entry();
    e.protocol = Protocol::Icmp;
    e.internal_port = 7; // the ICMP identifier
    e.external_port = 0;
    // The destination slot carries the sequence number and must not matter.
    assert!(e.matches_outbound(&[192, 168, 4, 10], 7, &[8, 8, 8, 8], 1, Protocol::Icmp));
    assert!(e.matches_outbound(&[192, 168, 4, 10], 7, &[8, 8, 8, 8], 999, Protocol::Icmp));
    assert!(!e.matches_outbound(&[192, 168, 4, 10], 8, &[8, 8, 8, 8], 1, Protocol::Icmp));
}

#[test]
fn free_slot_matches_nothing() {
    let mut e = live_tcp_entry();
    e.in_use = false;
    assert!(!e.matches_outbound(&[192, 168, 4, 10], 40000, &[8, 8, 8, 8], 443, Protocol::Tcp));
    assert!(!e.matches_inbound(&[8, 8, 8, 8], 443, 50000, Protocol::Tcp));
}

#[test]
fn inbound_match_keys_on_remote_and_external_port() {
    let e = live_tcp_entry();
    assert!(e.matches_inbound(&[8, 8, 8, 8], 443, 50000, Protocol::Tcp));
    assert!(!e.matches_inbound(&[8, 8, 4, 4], 443, 50000, Protocol::Tcp));
    assert!(!e.matches_inbound(&[8, 8, 8, 8], 80, 50000, Protocol::Tcp));
    assert!(!e.matches_inbound(&[8, 8, 8, 8], 443, 50001, Protocol::Tcp));
    assert!(!e.matches_inbound(&[8, 8, 8, 8], 443, 50000, Protocol::Udp));
}

#[test]
fn inbound_match_needs_no_remote_port_for_icmp() {
    let mut e = live_tcp_entry();
    e.protocol = Protocol::Icmp;
    e.external_port = 0;
    assert!(e.matches_inbound(&[8, 8, 8, 8], 1234, 0, Protocol::Icmp));
}

#[test]
fn touch_refreshes_last_activity() {
    let mut e = live_tcp_entry();
    e.touch(99_999);
    assert_eq!(e.last_activity, 99_999);
    assert!(e.in_use);
    assert_eq!(e.external_port, 50000);
}

#[test]
fn expiry_boundary_is_strictly_greater() {
    // TCP idles out after 45000 ms, UDP after 30000, ICMP after 20000; the
    // boundary itself is still fresh, one millisecond past it is expired.
    for (proto, timeout) in [
        (Protocol::Tcp, 45_000u32),
        (Protocol::Udp, 30_000),
        (Protocol::Icmp, 20_000),
    ] {
        let mut e = live_tcp_entry();
        e.protocol = proto;
        e.last_activity = 1000;
        assert!(!e.is_expired(1000 + timeout), "fresh at the boundary");
        assert!(e.is_expired(1000 + timeout + 1), "expired one past the boundary");
    }
}

#[test]
fn clock_behind_last_activity_counts_as_fresh() {
    // The idle time saturates at zero when the clock reads earlier than
    // the recorded activity.
    let mut e = live_tcp_entry();
    e.last_activity = 50_000;
    assert!(!e.is_expired(0));
    assert!(!e.is_expired(49_999));
}

#[test]
fn free_slot_is_always_expired() {
    let e = NatEntry::new();
    assert!(e.is_expired(0));
    assert!(e.is_expired(u32::MAX));
}
