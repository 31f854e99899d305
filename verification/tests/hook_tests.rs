use nat_engine::checksum::ip_checksum;
use nat_engine::hook::nat_hook;
use nat_engine::packet::NetPkt;
use nat_engine::table::{NatConfig, NatTable};

fn configured_table() -> NatTable {
    let mut t = NatTable::new();
    t.set_config(NatConfig {
        internal_network: [192, 168, 4, 0],
        internal_netmask: [255, 255, 255, 0],
        external_ip: [203, 0, 113, 5],
        internal_iface: 1,
        external_iface: 2,
    });
    t
}

/// Builds a UDP/IPv4 packet with valid IP and UDP checksums.
fn udp_packet(src: [u8; 4], sp: u16, dst: [u8; 4], dp: u16, payload: &[u8]) -> Vec<u8> {
    let udp_len = (8 + payload.len()) as u16;
    let total = 20 + udp_len;
    let mut p: Vec<u8> = Vec::new();
    p.push(0x45);
    p.push(0x00);
    p.extend_from_slice(&total.to_be_bytes());
    p.extend_from_slice(&[0x00, 0x01, 0x00, 0x00, 64, 17, 0, 0]);
    p.extend_from_slice(&src);
    p.extend_from_slice(&dst);
    let c = ip_checksum(&p[0..20]);
    p[10] = (c >> 8) as u8;
    p[11] = (c & 0xff) as u8;
    p.extend_from_slice(&sp.to_be_bytes());
    p.extend_from_slice(&dp.to_be_bytes());
    p.extend_from_slice(&udp_len.to_be_bytes());
    p.extend_from_slice(&[0, 0]);
    p.extend_from_slice(payload);
    let uc = full_udp_checksum(&p);
    p[26] = (uc >> 8) as u8;
    p[27] = (uc & 0xff) as u8;
    p
}

/// Full UDP checksum over the pseudo-header and the datagram with the
/// checksum field zeroed.
fn full_udp_checksum(p: &[u8]) -> u16 {
    let mut pseudo: Vec<u8> = Vec::new();
    pseudo.extend_from_slice(&p[12..20]);
    pseudo.push(0);
    pseudo.push(17);
    let udp_len = (p.len() - 20) as u16;
    pseudo.extend_from_slice(&udp_len.to_be_bytes());
    pseudo.extend_from_slice(&p[20..26]);
    pseudo.push(0);
    pseudo.push(0);
    pseudo.extend_from_slice(&p[28..]);
    ip_checksum(&pseudo)
}

#[test]
fn hook_translates_outbound_flow_end_to_end() {
    // Internal network 192.168.4.0/24 behind external address 203.0.113.5:
    // a DNS query from 192.168.4.10:40000 to 8.8.8.8:53 leaves with source
    // 203.0.113.5:50000 and consistent checksums.
    let mut t = configured_table();
    let mut pkt = NetPkt { data: udp_packet([192, 168, 4, 10], 40000, [8, 8, 8, 8], 53, b"q"), iface: 1 };
    assert_eq!(nat_hook(&mut t, &mut pkt, 1000), 1, "rewritten and to be resent");
    assert_eq!(&pkt.data[12..16], &[203, 0, 113, 5]);
    assert_eq!(u16::from_be_bytes([pkt.data[20], pkt.data[21]]), 50000);
    assert_eq!(ip_checksum(&pkt.data[0..20]), 0, "IP checksum verifies");
    let stored = u16::from_be_bytes([pkt.data[26], pkt.data[27]]);
    assert_eq!(stored, full_udp_checksum(&pkt.data), "UDP checksum tracks the deltas");
    assert_eq!(pkt.iface, 2, "retargeted to the external interface");
    assert_eq!(t.entry_count(), 1);
    // A second identical packet reuses port 50000, not 50001.
    let mut pkt2 = NetPkt { data: udp_packet([192, 168, 4, 10], 40000, [8, 8, 8, 8], 53, b"q"), iface: 1 };
    assert_eq!(nat_hook(&mut t, &mut pkt2, 2000), 1);
    assert_eq!(u16::from_be_bytes([pkt2.data[20], pkt2.data[21]]), 50000);
    assert_eq!(t.entry_count(), 1);
}

#[test]
fn hook_translates_reply_back_inbound() {
    let mut t = configured_table();
    let mut out = NetPkt { data: udp_packet([192, 168, 4, 10], 40000, [8, 8, 8, 8], 53, b"q"), iface: 1 };
    assert_eq!(nat_hook(&mut t, &mut out, 1000), 1);
    // The reply arrives for the external address on the WAN interface.
    let mut reply = NetPkt { data: udp_packet([8, 8, 8, 8], 53, [203, 0, 113, 5], 50000, b"a"), iface: 2 };
    assert_eq!(nat_hook(&mut t, &mut reply, 1500), 1);
    assert_eq!(&reply.data[16..20], &[192, 168, 4, 10], "destination restored");
    assert_eq!(u16::from_be_bytes([reply.data[22], reply.data[23]]), 40000);
    assert_eq!(ip_checksum(&reply.data[0..20]), 0);
    let stored = u16::from_be_bytes([reply.data[26], reply.data[27]]);
    assert_eq!(stored, full_udp_checksum(&reply.data));
    assert_eq!(reply.iface, 1, "retargeted to the internal interface");
}

#[test]
fn hook_passes_unrelated_traffic_through() {
    let mut t = configured_table();
    // Intra-LAN traffic: neither direction rewrites it.
    let data = udp_packet([192, 168, 4, 10], 40000, [192, 168, 4, 20], 53, b"q");
    let mut pkt = NetPkt { data: data.clone(), iface: 1 };
    assert_eq!(nat_hook(&mut t, &mut pkt, 0), 0, "continue normal processing");
    assert_eq!(pkt.data, data);
    assert_eq!(pkt.iface, 1);
    assert_eq!(t.entry_count(), 0);
}

#[test]
fn hook_lets_unsolicited_inbound_continue() {
    let mut t = configured_table();
    // Unsolicited traffic to the external address: the lookup miss is
    // benign and the outbound gate skips it too (source not internal).
    let data = udp_packet([8, 8, 8, 8], 53, [203, 0, 113, 5], 50000, b"a");
    let mut pkt = NetPkt { data: data.clone(), iface: 2 };
    assert_eq!(nat_hook(&mut t, &mut pkt, 0), 0);
    assert_eq!(pkt.data, data);
}

#[test]
fn hook_drops_malformed_packet() {
    let mut t = configured_table();
    let mut short = NetPkt { data: vec![0x45, 0x00, 0x00], iface: 1 };
    assert_eq!(nat_hook(&mut t, &mut short, 0), -1);
    let mut v6 = NetPkt { data: udp_packet([192, 168, 4, 10], 1, [8, 8, 8, 8], 2, b""), iface: 1 };
    v6.data[0] = 0x65;
    assert_eq!(nat_hook(&mut t, &mut v6, 0), -1);
}

#[test]
fn hook_drops_unsupported_protocol_from_internal_source() {
    let mut t = configured_table();
    let mut pkt = NetPkt { data: udp_packet([192, 168, 4, 10], 1, [8, 8, 8, 8], 2, b""), iface: 1 };
    pkt.data[9] = 47; // not TCP, UDP or ICMP
    assert_eq!(nat_hook(&mut t, &mut pkt, 0), -1);
}

#[test]
fn hook_refuses_unconfigured_table() {
    let mut t = NatTable::new();
    let mut pkt = NetPkt { data: udp_packet([192, 168, 4, 10], 1, [8, 8, 8, 8], 2, b""), iface: 1 };
    assert_eq!(nat_hook(&mut t, &mut pkt, 0), -1);
}

#[test]
fn hook_translates_icmp_echo_and_reply() {
    let mut t = configured_table();
    // Echo request with identifier 0x0407 from the LAN.
    let mut p: Vec<u8> = vec![
        0x45, 0x00, 0x00, 0x1c, 0x00, 0x01, 0x00, 0x00, 64, 1, 0, 0, 192, 168, 4, 10, 8, 8, 8, 8,
    ];
    let c = ip_checksum(&p[0..20]);
    p[10] = (c >> 8) as u8;
    p[11] = (c & 0xff) as u8;
    p.extend_from_slice(&[8, 0, 0xab, 0xcd, 0x04, 0x07, 0x00, 0x01]);
    let mut pkt = NetPkt { data: p, iface: 1 };
    assert_eq!(nat_hook(&mut t, &mut pkt, 0), 1);
    assert_eq!(&pkt.data[12..16], &[203, 0, 113, 5]);
    assert_eq!(ip_checksum(&pkt.data[0..20]), 0);
    // The ICMP identifier itself is not rewritten.
    assert_eq!(&pkt.data[24..26], &[0x04, 0x07]);
    // The echo reply comes back to the external address.
    let mut r: Vec<u8> = vec![
        0x45, 0x00, 0x00, 0x1c, 0x00, 0x02, 0x00, 0x00, 64, 1, 0, 0, 8, 8, 8, 8, 203, 0, 113, 5,
    ];
    let rc = ip_checksum(&r[0..20]);
    r[10] = (rc >> 8) as u8;
    r[11] = (rc & 0xff) as u8;
    r.extend_from_slice(&[0, 0, 0xab, 0xcd, 0x04, 0x07, 0x00, 0x01]);
    let mut reply = NetPkt { data: r, iface: 2 };
    assert_eq!(nat_hook(&mut t, &mut reply, 100), 1);
    assert_eq!(&reply.data[16..20], &[192, 168, 4, 10], "echoed back to the pinging host");
    assert_eq!(ip_checksum(&reply.data[0..20]), 0);
    assert_eq!(reply.iface, 1);
}
