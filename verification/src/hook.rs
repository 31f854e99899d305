//! The single per-packet entry point: inbound translation is attempted
//! first so that replies to tracked flows are recognized before the
//! outbound policy gate could mis-route them, then outbound translation;
//! the host is told whether to resend the rewritten packet, continue
//! normal processing, or drop it.

use vstd::prelude::*;
use crate::packet::{
    spec_apply_data, spec_apply_iface, spec_parse, spec_parse_ok, NetPkt, PacketContext,
};
use crate::table::{
    spec_translate_inbound, spec_translate_outbound, NatError, NatTable, NatTableView,
};

verus! {

/// Return code telling the host to drop the packet.
pub const NAT_DROP: i32 = -1;

/// Return code telling the host to continue normal processing.
pub const NAT_CONTINUE: i32 = 0;

/// Return code telling the host the packet was rewritten and resent.
pub const NAT_RESEND: i32 = 1;

/// What one inbound pass leaves behind, given the context parsed from the
/// packet: the table and the packet bytes and interface after translation
/// and — when the translation marked the packet dirty — after the rewrite
/// was applied; with code 1 for an applied rewrite, 0 for a clean pass
/// through or the benign lookup miss, and -1 for any other failure.
pub open spec fn spec_inbound_step(
    t: NatTableView,
    data: Seq<u8>,
    iface: u32,
    now: u32,
) -> (NatTableView, Seq<u8>, u32, i32) {
    let c = spec_parse(data, iface);
    let (t1, c1, r1) = spec_translate_inbound(t, c, now);
    match r1 {
        Ok(()) => if c1.needs_update {
            (t1, spec_apply_data(c1, data), spec_apply_iface(c1, iface), NAT_RESEND)
        } else {
            (t1, data, iface, NAT_CONTINUE)
        },
        Err(e) => if e == NatError::NoMatchingEntry {
            (t1, data, iface, NAT_CONTINUE)
        } else {
            (t1, data, iface, NAT_DROP)
        },
    }
}

/// What one outbound pass leaves behind, given the context parsed from the
/// packet: as the inbound step, except that every translation failure —
/// unsupported protocol, table full, not configured — reports -1.
pub open spec fn spec_outbound_step(
    t: NatTableView,
    data: Seq<u8>,
    iface: u32,
    now: u32,
) -> (NatTableView, Seq<u8>, u32, i32) {
    let c = spec_parse(data, iface);
    let (t1, c1, r1) = spec_translate_outbound(t, c, now);
    match r1 {
        Ok(()) => if c1.needs_update {
            (t1, spec_apply_data(c1, data), spec_apply_iface(c1, iface), NAT_RESEND)
        } else {
            (t1, data, iface, NAT_CONTINUE)
        },
        Err(_) => (t1, data, iface, NAT_DROP),
    }
}

/// What the whole hook leaves behind on a parseable packet: the inbound
/// step, and — only when that step neither rewrote the packet nor failed —
/// the outbound step on the (then untouched) packet.
pub open spec fn spec_hook_step(t: NatTableView, data: Seq<u8>, iface: u32, now: u32) -> (
    NatTableView,
    Seq<u8>,
    u32,
    i32,
) {
    let (t1, d1, i1, code1) = spec_inbound_step(t, data, iface, now);
    if code1 == NAT_CONTINUE {
        spec_outbound_step(t1, d1, i1, now)
    } else {
        (t1, d1, i1, code1)
    }
}

/// Runs one packet through inbound translation at time `now`: parse,
/// translate, and apply a dirty rewrite in place.  Returns 1 after a
/// rewrite was applied (the host should resend the packet), 0 when the
/// packet passed through untouched — the benign lookup miss included,
/// which is expected for new connections — and -1 when the packet cannot
/// be parsed or translation failed.
pub fn nat_inbound(table: &mut NatTable, pkt: &mut NetPkt, now: u32) -> (r: i32)
    requires
        old(table)@.inv(),
    ensures
        final(table)@.inv(),
        !spec_parse_ok(old(pkt).data@) ==> r == NAT_DROP && *final(pkt) == *old(pkt)
            && final(table)@ == old(table)@,
        spec_parse_ok(old(pkt).data@) ==> ({
            let (t1, d1, i1, code) = spec_inbound_step(
                old(table)@,
                old(pkt).data@,
                old(pkt).iface,
                now,
            );
            &&& final(table)@ =~= t1
            &&& final(pkt).data@ == d1
            &&& final(pkt).iface == i1
            &&& r == code
        }),
{
    let mut ctx = match PacketContext::from_pkt(pkt) {
        Some(c) => c,
        None => {
            return NAT_DROP;
        },
    };
    match table.translate_inbound(&mut ctx, now) {
        Ok(_) => {
            if ctx.needs_update {
                ctx.apply_to_pkt(pkt);
                NAT_RESEND
            } else {
                NAT_CONTINUE
            }
        },
        Err(e) => {
            if e == NatError::NoMatchingEntry {
                NAT_CONTINUE
            } else {
                NAT_DROP
            }
        },
    }
}

/// Runs one packet through outbound translation at time `now`: parse,
/// translate, and apply a dirty rewrite in place.  Returns 1 after a
/// rewrite was applied, 0 when the packet passed through untouched, and -1
/// when the packet cannot be parsed or translation failed.
pub fn nat_outbound(table: &mut NatTable, pkt: &mut NetPkt, now: u32) -> (r: i32)
    requires
        old(table)@.inv(),
    ensures
        final(table)@.inv(),
        !spec_parse_ok(old(pkt).data@) ==> r == NAT_DROP && *final(pkt) == *old(pkt)
            && final(table)@ == old(table)@,
        spec_parse_ok(old(pkt).data@) ==> ({
            let (t1, d1, i1, code) = spec_outbound_step(
                old(table)@,
                old(pkt).data@,
                old(pkt).iface,
                now,
            );
            &&& final(table)@ =~= t1
            &&& final(pkt).data@ == d1
            &&& final(pkt).iface == i1
            &&& r == code
        }),
{
    let mut ctx = match PacketContext::from_pkt(pkt) {
        Some(c) => c,
        None => {
            return NAT_DROP;
        },
    };
    match table.translate_outbound(&mut ctx, now) {
        Ok(_) => {
            if ctx.needs_update {
                ctx.apply_to_pkt(pkt);
                NAT_RESEND
            } else {
                NAT_CONTINUE
            }
        },
        Err(_) => NAT_DROP,
    }
}

/// The per-packet hook the host stack calls where it decides a packet's
/// fate.  Inbound translation runs first — deliberately, so that replies
/// to tracked outbound flows are recognized before the outbound policy
/// gate (which would see WAN-to-LAN traffic as "destination internal,
/// skip") could mis-route them — then outbound translation.  Returns 1
/// when a rewrite was applied and the packet should be resent on its (now
/// possibly retargeted) interface, 0 when the packet should continue
/// through normal processing, and -1 when it should be dropped.
pub fn nat_hook(table: &mut NatTable, pkt: &mut NetPkt, now: u32) -> (r: i32)
    requires
        old(table)@.inv(),
    ensures
        final(table)@.inv(),
        r == NAT_DROP || r == NAT_CONTINUE || r == NAT_RESEND,
        !spec_parse_ok(old(pkt).data@) ==> r == NAT_DROP && *final(pkt) == *old(pkt)
            && final(table)@ == old(table)@,
        spec_parse_ok(old(pkt).data@) ==> ({
            let (t1, d1, i1, code) = spec_hook_step(
                old(table)@,
                old(pkt).data@,
                old(pkt).iface,
                now,
            );
            &&& final(table)@ =~= t1
            &&& final(pkt).data@ == d1
            &&& final(pkt).iface == i1
            &&& r == code
        }),
{
    let inbound_result = nat_inbound(table, pkt, now);
    if inbound_result != NAT_CONTINUE {
        return inbound_result;
    }
    nat_outbound(table, pkt, now)
}

} // verus!
