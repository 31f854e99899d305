use nat_engine::checksum::ip_checksum;
use nat_engine::packet::{NetPkt, PacketContext};

/// Builds a UDP/IPv4 packet with valid IP and UDP checksums.
fn build_udp(src: [u8; 4], sp: u16, dst: [u8; 4], dp: u16, payload: &[u8]) -> Vec<u8> {
    let udp_len = (8 + payload.len()) as u16;
    let total = 20 + udp_len;
    let mut p: Vec<u8> = Vec::new();
    p.push(0x45);
    p.push(0x00);
    p.extend_from_slice(&total.to_be_bytes());
    p.extend_from_slice(&[0x00, 0x01, 0x00, 0x00, 64, 17, 0, 0]);
    p.extend_from_slice(&src);
    p.extend_from_slice(&dst);
    let c = ip_checksum(&p[0..20]);
    p[10] = (c >> 8) as u8;
    p[11] = (c & 0xff) as u8;
    p.extend_from_slice(&sp.to_be_bytes());
    p.extend_from_slice(&dp.to_be_bytes());
    p.extend_from_slice(&udp_len.to_be_bytes());
    p.extend_from_slice(&[0, 0]);
    p.extend_from_slice(payload);
    let uc = udp_checksum(&p);
    p[26] = (uc >> 8) as u8;
    p[27] = (uc & 0xff) as u8;
    p
}

/// Full UDP checksum of a packet built by `build_udp`, computed over the
/// pseudo-header and the UDP datagram with the checksum field zeroed.
fn udp_checksum(p: &[u8]) -> u16 {
    let mut pseudo: Vec<u8> = Vec::new();
    pseudo.extend_from_slice(&p[12..20]);
    pseudo.push(0);
    pseudo.push(17);
    let udp_len = (p.len() - 20) as u16;
    pseudo.extend_from_slice(&udp_len.to_be_bytes());
    pseudo.extend_from_slice(&p[20..26]);
    pseudo.push(0);
    pseudo.push(0);
    pseudo.extend_from_slice(&p[28..]);
    ip_checksum(&pseudo)
}

#[test]
fn parse_decodes_udp_header_fields() {
    let data = build_udp([192, 168, 4, 10], 40000, [8, 8, 8, 8], 53, b"hi");
    let pkt = NetPkt { data, iface: 2 };
    let ctx = PacketContext::from_pkt(&pkt).expect("well-formed packet must parse");
    assert_eq!(ctx.ip_hdr.vhl, 0x45);
    assert_eq!(ctx.ip_hdr.tos, 0);
    assert_eq!(ctx.ip_hdr.len, [0, 30]);
    assert_eq!(ctx.ip_hdr.ttl, 64);
    assert_eq!(ctx.ip_hdr.proto, 17);
    assert_eq!(ctx.ip_hdr.src, [192, 168, 4, 10]);
    assert_eq!(ctx.ip_hdr.dst, [8, 8, 8, 8]);
    assert_eq!(ctx.src_port, 40000);
    assert_eq!(ctx.dst_port, 53);
    assert!(!ctx.needs_update);
    assert_eq!(ctx.iface, 2);
    assert_eq!(ctx.orig_iface, 2);
}

#[test]
fn parse_rejects_short_buffer() {
    let pkt = NetPkt { data: vec![0x45; 19], iface: 0 };
    assert!(PacketContext::from_pkt(&pkt).is_none());
}

#[test]
fn parse_rejects_wrong_version() {
    let mut data = build_udp([10, 0, 0, 1], 1, [10, 0, 0, 2], 2, b"");
    data[0] = 0x65; // declares IPv6
    let pkt = NetPkt { data, iface: 0 };
    assert!(PacketContext::from_pkt(&pkt).is_none());
}

#[test]
fn parse_rejects_bad_header_length() {
    let mut data = build_udp([10, 0, 0, 1], 1, [10, 0, 0, 2], 2, b"");
    data[0] = 0x44; // IHL of 4 words: 16 bytes, below the minimum of 20
    let pkt = NetPkt { data, iface: 0 };
    assert!(PacketContext::from_pkt(&pkt).is_none());
    let mut data2 = build_udp([10, 0, 0, 1], 1, [10, 0, 0, 2], 2, b"");
    data2[0] = 0x4f; // IHL of 15 words: 60 bytes, beyond this short buffer
    let pkt2 = NetPkt { data: data2, iface: 0 };
    assert!(PacketContext::from_pkt(&pkt2).is_none());
}

#[test]
fn parse_gives_zero_ports_for_other_protocols() {
    let mut data = build_udp([10, 0, 0, 1], 7, [10, 0, 0, 2], 9, b"");
    data[9] = 47; // GRE: no positional ports
    let pkt = NetPkt { data, iface: 0 };
    let ctx = PacketContext::from_pkt(&pkt).unwrap();
    assert_eq!(ctx.src_port, 0);
    assert_eq!(ctx.dst_port, 0);
}

#[test]
fn parse_reads_icmp_identifier_as_source_port() {
    // ICMP echo request: type 8, code 0, checksum, identifier 0x0407,
    // sequence 1.
    let mut p: Vec<u8> = vec![
        0x45, 0x00, 0x00, 0x1c, 0x00, 0x01, 0x00, 0x00, 64, 1, 0, 0, 192, 168, 4, 10, 8, 8, 8, 8,
    ];
    p.extend_from_slice(&[8, 0, 0, 0, 0x04, 0x07, 0x00, 0x01]);
    let pkt = NetPkt { data: p, iface: 1 };
    let ctx = PacketContext::from_pkt(&pkt).unwrap();
    assert_eq!(ctx.src_port, 0x0407);
    assert_eq!(ctx.dst_port, 0);
}

#[test]
fn apply_without_dirty_flag_changes_nothing() {
    let data = build_udp([192, 168, 4, 10], 40000, [8, 8, 8, 8], 53, b"hi");
    let mut pkt = NetPkt { data: data.clone(), iface: 2 };
    let mut ctx = PacketContext::from_pkt(&pkt).unwrap();
    ctx.ip_hdr.src = [1, 2, 3, 4]; // ignored: the flag is clear
    ctx.apply_to_pkt(&mut pkt);
    assert_eq!(pkt.data, data);
    assert_eq!(pkt.iface, 2);
}

#[test]
fn apply_rewrites_udp_source_and_keeps_checksums_valid() {
    let data = build_udp([192, 168, 4, 10], 40000, [8, 8, 8, 8], 53, b"query");
    let mut pkt = NetPkt { data, iface: 1 };
    let mut ctx = PacketContext::from_pkt(&pkt).unwrap();
    ctx.ip_hdr.src = [203, 0, 113, 5];
    ctx.src_port = 50000;
    ctx.iface = 7;
    ctx.needs_update = true;
    ctx.apply_to_pkt(&mut pkt);
    assert_eq!(&pkt.data[12..16], &[203, 0, 113, 5]);
    assert_eq!(u16::from_be_bytes([pkt.data[20], pkt.data[21]]), 50000);
    // The IP header checksum verifies to zero again.
    assert_eq!(ip_checksum(&pkt.data[0..20]), 0);
    // The incrementally updated UDP checksum equals a full recompute over
    // the rewritten packet.
    let stored = u16::from_be_bytes([pkt.data[26], pkt.data[27]]);
    assert_eq!(stored, udp_checksum(&pkt.data));
    // The packet was retargeted to the context's interface.
    assert_eq!(pkt.iface, 7);
}

#[test]
fn apply_preserves_udp_zero_checksum_sentinel() {
    let mut data = build_udp([192, 168, 4, 10], 40000, [8, 8, 8, 8], 53, b"x");
    data[26] = 0;
    data[27] = 0;
    let mut pkt = NetPkt { data, iface: 1 };
    let mut ctx = PacketContext::from_pkt(&pkt).unwrap();
    ctx.ip_hdr.src = [203, 0, 113, 5];
    ctx.src_port = 50000;
    ctx.needs_update = true;
    ctx.apply_to_pkt(&mut pkt);
    // Ports are rewritten, but the unused-checksum sentinel stays 0.
    assert_eq!(u16::from_be_bytes([pkt.data[20], pkt.data[21]]), 50000);
    assert_eq!(u16::from_be_bytes([pkt.data[26], pkt.data[27]]), 0);
}

#[test]
fn apply_rewrites_tcp_ports_and_checksum() {
    // A minimal TCP packet: 20-byte IP header and 20-byte TCP header.
    let mut p: Vec<u8> = vec![
        0x45, 0x00, 0x00, 0x28, 0x00, 0x01, 0x00, 0x00, 64, 6, 0, 0, 192, 168, 4, 10, 8, 8, 8, 8,
    ];
    let c = ip_checksum(&p[0..20]);
    p[10] = (c >> 8) as u8;
    p[11] = (c & 0xff) as u8;
    p.extend_from_slice(&40000u16.to_be_bytes());
    p.extend_from_slice(&80u16.to_be_bytes());
    p.extend_from_slice(&[0, 0, 0, 1, 0, 0, 0, 0, 0x50, 0x02, 0x20, 0x00]);
    // Compute a valid TCP checksum over the pseudo-header and segment.
    let mut pseudo: Vec<u8> = Vec::new();
    pseudo.extend_from_slice(&p[12..20]);
    pseudo.push(0);
    pseudo.push(6);
    pseudo.extend_from_slice(&20u16.to_be_bytes());
    pseudo.extend_from_slice(&p[20..]);
    pseudo.extend_from_slice(&[0, 0]); // checksum slot, zeroed
    pseudo.extend_from_slice(&[0, 0]); // urgent pointer
    let tc = ip_checksum(&pseudo);
    p.extend_from_slice(&tc.to_be_bytes());
    p.extend_from_slice(&[0, 0]);
    let mut pkt = NetPkt { data: p, iface: 1 };
    let mut ctx = PacketContext::from_pkt(&pkt).unwrap();
    ctx.ip_hdr.src = [203, 0, 113, 5];
    ctx.src_port = 50000;
    ctx.needs_update = true;
    ctx.apply_to_pkt(&mut pkt);
    assert_eq!(&pkt.data[12..16], &[203, 0, 113, 5]);
    assert_eq!(u16::from_be_bytes([pkt.data[20], pkt.data[21]]), 50000);
    assert_eq!(ip_checksum(&pkt.data[0..20]), 0);
    // Recompute the TCP checksum in full over the rewritten packet.
    let mut pseudo2: Vec<u8> = Vec::new();
    pseudo2.extend_from_slice(&pkt.data[12..20]);
    pseudo2.push(0);
    pseudo2.push(6);
    pseudo2.extend_from_slice(&20u16.to_be_bytes());
    pseudo2.extend_from_slice(&pkt.data[20..36]);
    pseudo2.extend_from_slice(&[0, 0]);
    pseudo2.extend_from_slice(&pkt.data[38..40]);
    let stored = u16::from_be_bytes([pkt.data[36], pkt.data[37]]);
    assert_eq!(stored, ip_checksum(&pseudo2));
}

#[test]
fn apply_leaves_icmp_transport_bytes_alone() {
    let mut p: Vec<u8> = vec![
        0x45, 0x00, 0x00, 0x1c, 0x00, 0x01, 0x00, 0x00, 64, 1, 0, 0, 192, 168, 4, 10, 8, 8, 8, 8,
    ];
    let c = ip_checksum(&p[0..20]);
    p[10] = (c >> 8) as u8;
    p[11] = (c & 0xff) as u8;
    p.extend_from_slice(&[8, 0, 0xab, 0xcd, 0x04, 0x07, 0x00, 0x01]);
    let icmp_before = p[20..28].to_vec();
    let mut pkt = NetPkt { data: p, iface: 1 };
    let mut ctx = PacketContext::from_pkt(&pkt).unwrap();
    ctx.ip_hdr.src = [203, 0, 113, 5];
    ctx.src_port = 0;
    ctx.needs_update = true;
    ctx.apply_to_pkt(&mut pkt);
    // Addresses rewritten, IP checksum fresh, ICMP bytes untouched.
    assert_eq!(&pkt.data[12..16], &[203, 0, 113, 5]);
    assert_eq!(ip_checksum(&pkt.data[0..20]), 0);
    assert_eq!(&pkt.data[20..28], &icmp_before[..]);
}
