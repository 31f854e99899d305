//! The per-packet structured view: parsing a raw IPv4 packet buffer into
//! decoded header fields, and writing structured changes back into the
//! buffer with the checksums kept consistent.

use vstd::prelude::*;
use crate::entry::ip_eq;
use crate::checksum::{ip_checksum, spec_ip_checksum, spec_update_checksum, update_checksum};

verus! {

/// A raw packet as the host stack hands it over: the contiguous bytes of
/// its first fragment, starting at the IPv4 header, and the interface it
/// currently targets (0 when none is known).
#[derive(Debug)]
pub struct NetPkt {
    /// The packet's bytes.
    pub data: Vec<u8>,
    /// The interface the packet targets.
    pub iface: u32,
}

/// The fixed fields of an IPv4 header, decoded from the wire.  Multi-byte
/// fields that translation never interprets stay as raw big-endian bytes.
#[derive(Clone, Copy, Debug)]
pub struct Ipv4Hdr {
    /// Version and header-length nibbles.
    pub vhl: u8,
    /// Type of service.
    pub tos: u8,
    /// Total length, as raw big-endian bytes.
    pub len: [u8; 2],
    /// Identification, as raw big-endian bytes.
    pub id: [u8; 2],
    /// Flags and fragment offset, as raw big-endian bytes.
    pub offset: [u8; 2],
    /// Time to live.
    pub ttl: u8,
    /// Protocol number.
    pub proto: u8,
    /// Header checksum, parsed from its big-endian bytes.
    pub chksum: u16,
    /// Source address.
    pub src: [u8; 4],
    /// Destination address.
    pub dst: [u8; 4],
}

/// A transient per-packet view: the decoded IPv4 header, the transport
/// ports, and the rewrite bookkeeping.  It is built fresh from a raw buffer
/// for every packet, possibly mutated by translation, applied back to the
/// buffer, and discarded.
#[derive(Clone, Copy, Debug)]
pub struct PacketContext {
    /// Decoded IPv4 header.
    pub ip_hdr: Ipv4Hdr,
    /// Transport source port; for ICMP, the ICMP identifier.
    pub src_port: u16,
    /// Transport destination port; 0 for ICMP.
    pub dst_port: u16,
    /// Whether a rewrite occurred and must be written back.
    pub needs_update: bool,
    /// Interface the packet now targets; 0 when none is known.
    pub iface: u32,
    /// Interface the packet originally arrived on.
    pub orig_iface: u32,
}

/// The header length `data` declares, in bytes: the low nibble of the first
/// byte counts 32-bit words.
pub open spec fn spec_ihl(data: Seq<u8>) -> int {
    (data[0] % 16) * 4
}

/// Whether `data` parses as an IPv4 packet: at least the fixed 20 header
/// bytes are present, the version nibble reads 4, and the declared header
/// length is credible and fully inside the buffer.
pub open spec fn spec_parse_ok(data: Seq<u8>) -> bool {
    &&& data.len() >= 20
    &&& data[0] / 16 == 4
    &&& 20 <= spec_ihl(data) <= 60
    &&& data.len() >= spec_ihl(data)
}

/// The transport ports parsing decodes, positionally after the IP header:
/// the first two big-endian 16-bit words for TCP and UDP; for ICMP the
/// identifier at bytes 4-5 of the ICMP header in the source slot and 0 in
/// the destination slot; (0, 0) for any other protocol or a buffer too
/// short to hold them.
pub open spec fn spec_ports(data: Seq<u8>) -> (u16, u16) {
    let ihl = spec_ihl(data);
    if data[9] == 6 || data[9] == 17 {
        if data.len() >= ihl + 4 {
            (
                (data[ihl] * 256 + data[ihl + 1]) as u16,
                (data[ihl + 2] * 256 + data[ihl + 3]) as u16,
            )
        } else {
            (0u16, 0u16)
        }
    } else if data[9] == 1 {
        if data.len() >= ihl + 8 {
            ((data[ihl + 4] * 256 + data[ihl + 5]) as u16, 0u16)
        } else {
            (0u16, 0u16)
        }
    } else {
        (0u16, 0u16)
    }
}

/// How a parsed context relates to the buffer it was decoded from: every
/// field holds exactly the bytes the wire format places there, the dirty
/// flag starts clear, and both interface slots record the packet's current
/// interface.
pub open spec fn spec_parsed(data: Seq<u8>, iface: u32, c: PacketContext) -> bool {
    &&& c.ip_hdr.vhl == data[0]
    &&& c.ip_hdr.tos == data[1]
    &&& c.ip_hdr.len@ == data.subrange(2, 4)
    &&& c.ip_hdr.id@ == data.subrange(4, 6)
    &&& c.ip_hdr.offset@ == data.subrange(6, 8)
    &&& c.ip_hdr.ttl == data[8]
    &&& c.ip_hdr.proto == data[9]
    &&& c.ip_hdr.chksum == data[10] * 256 + data[11]
    &&& c.ip_hdr.src@ == data.subrange(12, 16)
    &&& c.ip_hdr.dst@ == data.subrange(16, 20)
    &&& c.src_port == spec_ports(data).0
    &&& c.dst_port == spec_ports(data).1
    &&& c.needs_update == false
    &&& c.iface == iface
    &&& c.orig_iface == iface
}

/// The 2-byte array holding the given bytes.
pub open spec fn arr2(a: u8, b: u8) -> [u8; 2] {
    vstd::array::spec_array_update(
        vstd::array::spec_array_update(vstd::array::spec_array_fill_for_copy_type::<u8, 2>(0), 0, a),
        1,
        b,
    )
}

/// The 4-byte array holding the given bytes.
pub open spec fn arr4(a: u8, b: u8, c: u8, d: u8) -> [u8; 4] {
    vstd::array::spec_array_update(
        vstd::array::spec_array_update(
            vstd::array::spec_array_update(
                vstd::array::spec_array_update(
                    vstd::array::spec_array_fill_for_copy_type::<u8, 4>(0),
                    0,
                    a,
                ),
                1,
                b,
            ),
            2,
            c,
        ),
        3,
        d,
    )
}

/// The context that parsing a well-formed buffer yields, field by field.
pub open spec fn spec_parse(data: Seq<u8>, iface: u32) -> PacketContext {
    PacketContext {
        ip_hdr: Ipv4Hdr {
            vhl: data[0],
            tos: data[1],
            len: arr2(data[2], data[3]),
            id: arr2(data[4], data[5]),
            offset: arr2(data[6], data[7]),
            ttl: data[8],
            proto: data[9],
            chksum: (data[10] * 256 + data[11]) as u16,
            src: arr4(data[12], data[13], data[14], data[15]),
            dst: arr4(data[16], data[17], data[18], data[19]),
        },
        src_port: spec_ports(data).0,
        dst_port: spec_ports(data).1,
        needs_update: false,
        iface: iface,
        orig_iface: iface,
    }
}

/// Combines two bytes into the big-endian 16-bit value they encode.
pub fn be16(hi: u8, lo: u8) -> (r: u16)
    ensures
        r == hi * 256 + lo,
{
    (hi as u16) * 256 + (lo as u16)
}

/// Copies the four bytes of `data` starting at `at` into an address.
fn read_ip(data: &Vec<u8>, at: usize) -> (r: [u8; 4])
    requires
        at + 4 <= data@.len(),
    ensures
        r@ == data@.subrange(at as int, at + 4),
{
    let _n: usize = data.len();
    let mut r: [u8; 4] = [0u8; 4];
    r[0] = data[at];
    r[1] = data[at + 1];
    r[2] = data[at + 2];
    r[3] = data[at + 3];
    proof {
        assert(r@ =~= data@.subrange(at as int, at + 4));
    }
    r
}

/// Copies the two bytes of `data` starting at `at` into a raw field.
fn read2(data: &Vec<u8>, at: usize) -> (r: [u8; 2])
    requires
        at + 2 <= data@.len(),
    ensures
        r@ == data@.subrange(at as int, at + 2),
{
    let _n: usize = data.len();
    let mut r: [u8; 2] = [0u8; 2];
    r[0] = data[at];
    r[1] = data[at + 1];
    proof {
        assert(r@ =~= data@.subrange(at as int, at + 2));
    }
    r
}

impl PacketContext {
    /// Parses a raw packet into a structured context.  Returns nothing when
    /// the buffer is shorter than 20 bytes, does not declare IPv4, or
    /// declares a header length outside 20..=60 or beyond the buffer;
    /// otherwise every decoded field holds exactly what the wire says.
    pub fn from_pkt(pkt: &NetPkt) -> (r: Option<PacketContext>)
        ensures
            r is Some <==> spec_parse_ok(pkt.data@),
            (r matches Some(c) ==> spec_parsed(pkt.data@, pkt.iface, c)),
            (r is Some ==> r == Some(spec_parse(pkt.data@, pkt.iface))),
    {
        let data = &pkt.data;
        if data.len() < 20 {
            return None;
        }
        let vhl = data[0];
        if vhl / 16 != 4 {
            return None;
        }
        let ihl: usize = ((vhl % 16) as usize) * 4;
        if ihl < 20 || ihl > 60 {
            return None;
        }
        if data.len() < ihl {
            return None;
        }
        let proto = data[9];
        let ip_hdr = Ipv4Hdr {
            vhl,
            tos: data[1],
            len: read2(data, 2),
            id: read2(data, 4),
            offset: read2(data, 6),
            ttl: data[8],
            proto,
            chksum: be16(data[10], data[11]),
            src: read_ip(data, 12),
            dst: read_ip(data, 16),
        };
        let (src_port, dst_port): (u16, u16) = if proto == 6 || proto == 17 {
            if data.len() >= ihl + 4 {
                (be16(data[ihl], data[ihl + 1]), be16(data[ihl + 2], data[ihl + 3]))
            } else {
                (0, 0)
            }
        } else if proto == 1 {
            if data.len() >= ihl + 8 {
                (be16(data[ihl + 4], data[ihl + 5]), 0)
            } else {
                (0, 0)
            }
        } else {
            (0, 0)
        };
        let c = Self {
            ip_hdr,
            src_port,
            dst_port,
            needs_update: false,
            iface: pkt.iface,
            orig_iface: pkt.iface,
        };
        proof {
            broadcast use vstd::array::group_array_axioms;

            let d = pkt.data@;
            let p = spec_parse(d, pkt.iface);
            assert(c.ip_hdr.len =~= p.ip_hdr.len);
            assert(c.ip_hdr.id =~= p.ip_hdr.id);
            assert(c.ip_hdr.offset =~= p.ip_hdr.offset);
            assert(c.ip_hdr.src =~= p.ip_hdr.src);
            assert(c.ip_hdr.dst =~= p.ip_hdr.dst);
            assert(c == p);
        }
        Some(c)
    }
}


/// The big-endian 16-bit word of `s` at byte index `i`.
pub open spec fn word_of(s: Seq<u8>, i: int) -> u16 {
    (s[i] * 256 + s[i + 1]) as u16
}

/// The region with the big-endian bytes of `v` written at byte index `i`.
pub open spec fn write2(data: Seq<u8>, i: int, v: u16) -> Seq<u8> {
    data.update(i, (v / 256) as u8).update(i + 1, (v % 256) as u8)
}

/// The region with the four bytes of `a` written at byte index `i`.
pub open spec fn write4(data: Seq<u8>, i: int, a: [u8; 4]) -> Seq<u8> {
    data.update(i, a@[0]).update(i + 1, a@[1]).update(i + 2, a@[2]).update(i + 3, a@[3])
}

/// Writes the four bytes of `a` into `data` at index `at`.
fn write_ip(data: &mut Vec<u8>, at: usize, a: &[u8; 4])
    requires
        at + 4 <= old(data)@.len(),
    ensures
        final(data)@ == write4(old(data)@, at as int, *a),
{
    let _n: usize = data.len();
    data[at] = a[0];
    data[at + 1] = a[1];
    data[at + 2] = a[2];
    data[at + 3] = a[3];
}

/// Writes the big-endian bytes of `v` into `data` at index `at`.
fn write_u16(data: &mut Vec<u8>, at: usize, v: u16)
    requires
        at + 2 <= old(data)@.len(),
    ensures
        final(data)@ == write2(old(data)@, at as int, v),
{
    let _n: usize = data.len();
    data[at] = (v / 256) as u8;
    data[at + 1] = (v % 256) as u8;
}

/// The transport checksum after the incremental updates for the address
/// halves that changed: each 16-bit half of the source and destination
/// address is folded in only when the rewrite altered it.
pub open spec fn spec_update_csum_for_ip(
    c: PacketContext,
    csum: u16,
    old_src: Seq<u8>,
    old_dst: Seq<u8>,
) -> u16 {
    let c1 = if old_src != c.ip_hdr.src@ {
        let oh = (old_src[0] * 256 + old_src[1]) as u16;
        let ol = (old_src[2] * 256 + old_src[3]) as u16;
        let nh = (c.ip_hdr.src@[0] * 256 + c.ip_hdr.src@[1]) as u16;
        let nl = (c.ip_hdr.src@[2] * 256 + c.ip_hdr.src@[3]) as u16;
        let ca = if oh != nh {
            spec_update_checksum(csum, oh, nh)
        } else {
            csum
        };
        if ol != nl {
            spec_update_checksum(ca, ol, nl)
        } else {
            ca
        }
    } else {
        csum
    };
    if old_dst != c.ip_hdr.dst@ {
        let oh = (old_dst[0] * 256 + old_dst[1]) as u16;
        let ol = (old_dst[2] * 256 + old_dst[3]) as u16;
        let nh = (c.ip_hdr.dst@[0] * 256 + c.ip_hdr.dst@[1]) as u16;
        let nl = (c.ip_hdr.dst@[2] * 256 + c.ip_hdr.dst@[3]) as u16;
        let ca = if oh != nh {
            spec_update_checksum(c1, oh, nh)
        } else {
            c1
        };
        if ol != nl {
            spec_update_checksum(ca, ol, nl)
        } else {
            ca
        }
    } else {
        c1
    }
}

/// The buffer after the TCP rewrite: both port fields overwritten, and the
/// TCP checksum updated incrementally for each changed port and — when an
/// address changed — each changed address half.  A buffer too short for the
/// 20-byte TCP header is left untouched.
pub open spec fn spec_apply_tcp(
    c: PacketContext,
    data: Seq<u8>,
    ihl: int,
    old_src: Seq<u8>,
    old_dst: Seq<u8>,
    ip_changed: bool,
) -> Seq<u8> {
    if data.len() < ihl + 20 {
        data
    } else {
        let old_sp = word_of(data, ihl);
        let old_dp = word_of(data, ihl + 2);
        let csum0 = word_of(data, ihl + 16);
        let d1 = write2(write2(data, ihl, c.src_port), ihl + 2, c.dst_port);
        let c1 = if old_sp != c.src_port {
            spec_update_checksum(csum0, old_sp, c.src_port)
        } else {
            csum0
        };
        let c2 = if old_dp != c.dst_port {
            spec_update_checksum(c1, old_dp, c.dst_port)
        } else {
            c1
        };
        let c3 = if ip_changed {
            spec_update_csum_for_ip(c, c2, old_src, old_dst)
        } else {
            c2
        };
        write2(d1, ihl + 16, c3)
    }
}

/// The buffer after the UDP rewrite: both port fields overwritten, and the
/// UDP checksum updated like TCP's — except that a stored checksum of 0,
/// UDP's "checksum unused" sentinel, is preserved and never replaced by a
/// computed value.  A buffer too short for the 8-byte UDP header is left
/// untouched.
pub open spec fn spec_apply_udp(
    c: PacketContext,
    data: Seq<u8>,
    ihl: int,
    old_src: Seq<u8>,
    old_dst: Seq<u8>,
    ip_changed: bool,
) -> Seq<u8> {
    if data.len() < ihl + 8 {
        data
    } else {
        let old_sp = word_of(data, ihl);
        let old_dp = word_of(data, ihl + 2);
        let csum0 = word_of(data, ihl + 6);
        let d1 = write2(write2(data, ihl, c.src_port), ihl + 2, c.dst_port);
        if csum0 == 0 {
            d1
        } else {
            let c1 = if old_sp != c.src_port {
                spec_update_checksum(csum0, old_sp, c.src_port)
            } else {
                csum0
            };
            let c2 = if old_dp != c.dst_port {
                spec_update_checksum(c1, old_dp, c.dst_port)
            } else {
                c1
            };
            let c3 = if ip_changed {
                spec_update_csum_for_ip(c, c2, old_src, old_dst)
            } else {
                c2
            };
            write2(d1, ihl + 6, c3)
        }
    }
}

/// The buffer after a context has been applied.  A clean context, a header
/// length below 20 or a buffer shorter than the header leave it untouched.
/// Otherwise both addresses are overwritten; if either actually changed,
/// the IP header checksum is zeroed and recomputed in full over the header
/// (options included); and the transport layer is rewritten per protocol —
/// TCP and UDP as above, anything else address-only.
pub open spec fn spec_apply_data(c: PacketContext, data: Seq<u8>) -> Seq<u8> {
    let ihl = (c.ip_hdr.vhl % 16) * 4;
    if !c.needs_update || ihl < 20 || data.len() < ihl {
        data
    } else {
        let old_src = data.subrange(12, 16);
        let old_dst = data.subrange(16, 20);
        let d1 = write4(write4(data, 12, c.ip_hdr.src), 16, c.ip_hdr.dst);
        let ip_changed = old_src != c.ip_hdr.src@ || old_dst != c.ip_hdr.dst@;
        let d2 = if ip_changed {
            let zeroed = write2(d1, 10, 0);
            write2(zeroed, 10, spec_ip_checksum(zeroed.subrange(0, ihl)))
        } else {
            d1
        };
        if c.ip_hdr.proto == 6 {
            spec_apply_tcp(c, d2, ihl, old_src, old_dst, ip_changed)
        } else if c.ip_hdr.proto == 17 {
            spec_apply_udp(c, d2, ihl, old_src, old_dst, ip_changed)
        } else {
            d2
        }
    }
}

/// The packet's interface after a context has been applied: retargeted to
/// the context's interface when the context is dirty, records an interface,
/// and that interface differs from the one the packet arrived on.
pub open spec fn spec_apply_iface(c: PacketContext, iface: u32) -> u32 {
    if c.needs_update && c.iface != 0 && c.iface != c.orig_iface {
        c.iface
    } else {
        iface
    }
}

impl PacketContext {
    /// Updates a transport checksum incrementally for the 16-bit halves of
    /// the source and destination addresses that the rewrite changed.
    pub fn update_checksum_for_ip(&self, csum: u16, old_src_ip: [u8; 4], old_dst_ip: [u8; 4]) -> (r:
        u16)
        ensures
            r == spec_update_csum_for_ip(*self, csum, old_src_ip@, old_dst_ip@),
    {
        let mut csum = csum;
        if !ip_eq(&old_src_ip, &self.ip_hdr.src) {
            let old_src_hi = be16(old_src_ip[0], old_src_ip[1]);
            let old_src_lo = be16(old_src_ip[2], old_src_ip[3]);
            let new_src_hi = be16(self.ip_hdr.src[0], self.ip_hdr.src[1]);
            let new_src_lo = be16(self.ip_hdr.src[2], self.ip_hdr.src[3]);
            if old_src_hi != new_src_hi {
                csum = update_checksum(csum, old_src_hi, new_src_hi);
            }
            if old_src_lo != new_src_lo {
                csum = update_checksum(csum, old_src_lo, new_src_lo);
            }
        }
        if !ip_eq(&old_dst_ip, &self.ip_hdr.dst) {
            let old_dst_hi = be16(old_dst_ip[0], old_dst_ip[1]);
            let old_dst_lo = be16(old_dst_ip[2], old_dst_ip[3]);
            let new_dst_hi = be16(self.ip_hdr.dst[0], self.ip_hdr.dst[1]);
            let new_dst_lo = be16(self.ip_hdr.dst[2], self.ip_hdr.dst[3]);
            if old_dst_hi != new_dst_hi {
                csum = update_checksum(csum, old_dst_hi, new_dst_hi);
            }
            if old_dst_lo != new_dst_lo {
                csum = update_checksum(csum, old_dst_lo, new_dst_lo);
            }
        }
        csum
    }

    /// Rewrites the TCP ports and checksum in place.
    fn update_tcp_checksum(
        &self,
        data: &mut Vec<u8>,
        ihl: usize,
        old_src: &[u8; 4],
        old_dst: &[u8; 4],
        ip_changed: bool,
    )
        requires
            ihl <= 60,
        ensures
            final(data)@ == spec_apply_tcp(
                *self,
                old(data)@,
                ihl as int,
                old_src@,
                old_dst@,
                ip_changed,
            ),
    {
        if data.len() < ihl + 20 {
            return;
        }
        let old_sp = be16(data[ihl], data[ihl + 1]);
        let old_dp = be16(data[ihl + 2], data[ihl + 3]);
        let mut csum = be16(data[ihl + 16], data[ihl + 17]);
        write_u16(data, ihl, self.src_port);
        write_u16(data, ihl + 2, self.dst_port);
        if old_sp != self.src_port {
            csum = update_checksum(csum, old_sp, self.src_port);
        }
        if old_dp != self.dst_port {
            csum = update_checksum(csum, old_dp, self.dst_port);
        }
        if ip_changed {
            csum = self.update_checksum_for_ip(csum, *old_src, *old_dst);
        }
        write_u16(data, ihl + 16, csum);
    }

    /// Rewrites the UDP ports and checksum in place, preserving a stored
    /// checksum of 0 as UDP's "checksum unused" sentinel.
    fn update_udp_checksum(
        &self,
        data: &mut Vec<u8>,
        ihl: usize,
        old_src: &[u8; 4],
        old_dst: &[u8; 4],
        ip_changed: bool,
    )
        requires
            ihl <= 60,
        ensures
            final(data)@ == spec_apply_udp(
                *self,
                old(data)@,
                ihl as int,
                old_src@,
                old_dst@,
                ip_changed,
            ),
    {
        if data.len() < ihl + 8 {
            return;
        }
        let old_sp = be16(data[ihl], data[ihl + 1]);
        let old_dp = be16(data[ihl + 2], data[ihl + 3]);
        let mut csum = be16(data[ihl + 6], data[ihl + 7]);
        write_u16(data, ihl, self.src_port);
        write_u16(data, ihl + 2, self.dst_port);
        if csum != 0 {
            if old_sp != self.src_port {
                csum = update_checksum(csum, old_sp, self.src_port);
            }
            if old_dp != self.dst_port {
                csum = update_checksum(csum, old_dp, self.dst_port);
            }
            if ip_changed {
                csum = self.update_checksum_for_ip(csum, *old_src, *old_dst);
            }
            write_u16(data, ihl + 6, csum);
        }
    }

    /// Writes a dirty context back into the raw packet: retargets the
    /// interface when it changed, overwrites the addresses, recomputes the
    /// IP header checksum in full when an address changed, and updates the
    /// transport checksum incrementally.  A clean context or a buffer too
    /// short for the declared header leaves the packet untouched.
    pub fn apply_to_pkt(&self, pkt: &mut NetPkt)
        ensures
            final(pkt).data@ == spec_apply_data(*self, old(pkt).data@),
            final(pkt).iface == spec_apply_iface(*self, old(pkt).iface),
    {
        if !self.needs_update {
            return;
        }
        if self.iface != 0 && self.iface != self.orig_iface {
            pkt.iface = self.iface;
        }
        let ihl: usize = ((self.ip_hdr.vhl % 16) as usize) * 4;
        if ihl < 20 || pkt.data.len() < ihl {
            return;
        }
        let old_src = read_ip(&pkt.data, 12);
        let old_dst = read_ip(&pkt.data, 16);
        write_ip(&mut pkt.data, 12, &self.ip_hdr.src);
        write_ip(&mut pkt.data, 16, &self.ip_hdr.dst);
        let ip_changed = !ip_eq(&old_src, &self.ip_hdr.src) || !ip_eq(&old_dst, &self.ip_hdr.dst);
        if ip_changed {
            pkt.data[10] = 0;
            pkt.data[11] = 0;
            proof {
                assert(pkt.data@ == write2(
                    write4(write4(old(pkt).data@, 12, self.ip_hdr.src), 16, self.ip_hdr.dst),
                    10,
                    0,
                ));
            }
            let csum = ip_checksum(vstd::slice::slice_subrange(pkt.data.as_slice(), 0, ihl));
            write_u16(&mut pkt.data, 10, csum);
        }
        match self.ip_hdr.proto {
            6 => {
                self.update_tcp_checksum(&mut pkt.data, ihl, &old_src, &old_dst, ip_changed);
            },
            17 => {
                self.update_udp_checksum(&mut pkt.data, ihl, &old_src, &old_dst, ip_changed);
            },
            _ => {},
        }
    }
}

} // verus!
