//! Properties of the translation model: what lookup misses mean, how the
//! policy gates behave, idempotence of outbound translation, the symmetry
//! of outbound and inbound mappings, the capacity limit, and the expiry
//! sweep.

use vstd::prelude::*;
use crate::entry::{NatEntry, Protocol};
use crate::packet::PacketContext;
use crate::store::MAX_NAT_ENTRIES;
use crate::table::{
    spec_find_inbound, spec_find_inbound_from, spec_find_outbound, spec_find_outbound_from,
    spec_outbound_pass, spec_translate_inbound, spec_translate_outbound, NatError, NatTableView,
};

verus! {

/// A failed outbound lookup means no entry matches: the first-match search
/// returns nothing exactly when nothing in its range matches.
pub proof fn lemma_find_outbound_none(
    s: Seq<NatEntry>,
    i: int,
    src_ip: [u8; 4],
    src_port: u16,
    dst_ip: [u8; 4],
    dst_port: u16,
    proto: Protocol,
)
    requires
        0 <= i,
        spec_find_outbound_from(s, i, src_ip, src_port, dst_ip, dst_port, proto) is None,
    ensures
        forall|j: int|
            i <= j < s.len() ==> !(#[trigger] s[j]).spec_matches_outbound(
                src_ip,
                src_port,
                dst_ip,
                dst_port,
                proto,
            ),
    decreases s.len() - i,
{
    if 0 <= i && i < s.len() {
        lemma_find_outbound_none(s, i + 1, src_ip, src_port, dst_ip, dst_port, proto);
    }
}

/// The first-match search finds index `k` when nothing before `k` matches
/// and the entry at `k` does.
pub proof fn lemma_find_outbound_at(
    s: Seq<NatEntry>,
    i: int,
    k: int,
    src_ip: [u8; 4],
    src_port: u16,
    dst_ip: [u8; 4],
    dst_port: u16,
    proto: Protocol,
)
    requires
        0 <= i <= k < s.len(),
        s[k].spec_matches_outbound(src_ip, src_port, dst_ip, dst_port, proto),
        forall|j: int|
            i <= j < k ==> !(#[trigger] s[j]).spec_matches_outbound(
                src_ip,
                src_port,
                dst_ip,
                dst_port,
                proto,
            ),
    ensures
        spec_find_outbound_from(s, i, src_ip, src_port, dst_ip, dst_port, proto) == Some(k),
    decreases k - i,
{
    if i < k {
        lemma_find_outbound_at(s, i + 1, k, src_ip, src_port, dst_ip, dst_port, proto);
    }
}

/// What a successful outbound lookup means: the found index is the first
/// matching one.
pub proof fn lemma_find_outbound_some(
    s: Seq<NatEntry>,
    i: int,
    k: int,
    src_ip: [u8; 4],
    src_port: u16,
    dst_ip: [u8; 4],
    dst_port: u16,
    proto: Protocol,
)
    requires
        0 <= i,
        spec_find_outbound_from(s, i, src_ip, src_port, dst_ip, dst_port, proto) == Some(k),
    ensures
        i <= k < s.len(),
        s[k].spec_matches_outbound(src_ip, src_port, dst_ip, dst_port, proto),
        forall|j: int|
            i <= j < k ==> !(#[trigger] s[j]).spec_matches_outbound(
                src_ip,
                src_port,
                dst_ip,
                dst_port,
                proto,
            ),
    decreases s.len() - i,
{
    if i < s.len() && !s[i].spec_matches_outbound(src_ip, src_port, dst_ip, dst_port, proto) {
        lemma_find_outbound_some(s, i + 1, k, src_ip, src_port, dst_ip, dst_port, proto);
    }
}

/// A failed inbound lookup means no entry matches.
pub proof fn lemma_find_inbound_none(
    s: Seq<NatEntry>,
    i: int,
    src_ip: [u8; 4],
    src_port: u16,
    dst_port: u16,
    proto: Protocol,
)
    requires
        0 <= i,
        spec_find_inbound_from(s, i, src_ip, src_port, dst_port, proto) is None,
    ensures
        forall|j: int|
            i <= j < s.len() ==> !(#[trigger] s[j]).spec_matches_inbound(
                src_ip,
                src_port,
                dst_port,
                proto,
            ),
    decreases s.len() - i,
{
    if 0 <= i && i < s.len() {
        lemma_find_inbound_none(s, i + 1, src_ip, src_port, dst_port, proto);
    }
}

/// The inbound first-match search finds index `k` when nothing before `k`
/// matches and the entry at `k` does.
pub proof fn lemma_find_inbound_at(
    s: Seq<NatEntry>,
    i: int,
    k: int,
    src_ip: [u8; 4],
    src_port: u16,
    dst_port: u16,
    proto: Protocol,
)
    requires
        0 <= i <= k < s.len(),
        s[k].spec_matches_inbound(src_ip, src_port, dst_port, proto),
        forall|j: int|
            i <= j < k ==> !(#[trigger] s[j]).spec_matches_inbound(
                src_ip,
                src_port,
                dst_port,
                proto,
            ),
    ensures
        spec_find_inbound_from(s, i, src_ip, src_port, dst_port, proto) == Some(k),
    decreases k - i,
{
    if i < k {
        lemma_find_inbound_at(s, i + 1, k, src_ip, src_port, dst_port, proto);
    }
}

/// Every element of a filtered sequence occurs in the original.
pub proof fn lemma_filter_element_of(s: Seq<NatEntry>, pred: spec_fn(NatEntry) -> bool, j: int)
    requires
        0 <= j < s.filter(pred).len(),
    ensures
        exists|i: int| 0 <= i < s.len() && s[i] == #[trigger] s.filter(pred)[j],
    decreases s.len(),
{
    reveal_with_fuel(Seq::<NatEntry>::filter, 2);
    if s.len() != 0 {
        let sub = s.drop_last().filter(pred);
        if j < sub.len() {
            lemma_filter_element_of(s.drop_last(), pred, j);
            let i = choose|i: int|
                0 <= i < s.drop_last().len() && s.drop_last()[i] == s.drop_last().filter(pred)[j];
            assert(s[i] == s.filter(pred)[j]);
        } else {
            assert(s.filter(pred)[j] == s.last());
            assert(s[s.len() - 1] == s.filter(pred)[j]);
        }
    }
}

/// Policy gates: an outbound packet whose source is not internal, or whose
/// destination is internal, multicast, the limited broadcast, or the
/// subnet-directed broadcast, is never translated and never creates an
/// entry — the table and the packet come back unchanged, successfully.
pub proof fn lemma_outbound_policy_gates(t: NatTableView, c: PacketContext, now: u32)
    requires
        t.configured,
        spec_outbound_pass(t.config, c),
    ensures
        spec_translate_outbound(t, c, now) == (t, c, Ok::<(), NatError>(())),
{
}

/// Capacity: when the table is full of unexpired flows, an outbound packet
/// that would need a new flow is answered with the explicit table-full
/// error, no entry is created, and neither the stored flows nor the packet
/// are altered.
pub proof fn lemma_outbound_table_full(
    t: NatTableView,
    c: PacketContext,
    now: u32,
    proto: Protocol,
)
    requires
        t.inv(),
        t.configured,
        !spec_outbound_pass(t.config, c),
        Protocol::spec_from_u8(c.ip_hdr.proto) == Some(proto),
        spec_find_outbound(t.entries, c.ip_hdr.src, c.src_port, c.ip_hdr.dst, c.dst_port, proto)
            is None,
        t.entries.len() == MAX_NAT_ENTRIES,
        forall|i: int| 0 <= i < t.entries.len() ==> !(#[trigger] t.entries[i]).spec_is_expired(now),
    ensures
        ({
            let (t2, c2, r2) = spec_translate_outbound(t, c, now);
            &&& r2 == Err::<(), NatError>(NatError::TableFull)
            &&& c2 == c
            &&& t2.entries == t.entries
            &&& t2.config == t.config
            &&& t2.peak_usage == t.peak_usage
        }),
{
    let pred = |e: NatEntry| !e.spec_is_expired(now);
    lemma_filter_all_kept(t.entries, pred);
}

/// Filtering with a predicate that holds of every element keeps the
/// sequence unchanged.
pub proof fn lemma_filter_all_kept(s: Seq<NatEntry>, pred: spec_fn(NatEntry) -> bool)
    requires
        forall|i: int| 0 <= i < s.len() ==> pred(#[trigger] s[i]),
    ensures
        s.filter(pred) == s,
    decreases s.len(),
{
    reveal_with_fuel(Seq::<NatEntry>::filter, 2);
    if s.len() != 0 {
        lemma_filter_all_kept(s.drop_last(), pred);
        assert(s.drop_last().push(s.last()) =~= s);
    }
}

/// The expiry sweep: after an outbound translation that found no entry and
/// therefore swept the table, every flow still stored — the freshly created
/// one included — is unexpired at the sweep time; an expired flow does not
/// survive the sweep.
pub proof fn lemma_sweep_removes_expired(
    t: NatTableView,
    c: PacketContext,
    now: u32,
    proto: Protocol,
)
    requires
        t.inv(),
        t.configured,
        !spec_outbound_pass(t.config, c),
        Protocol::spec_from_u8(c.ip_hdr.proto) == Some(proto),
        spec_find_outbound(t.entries, c.ip_hdr.src, c.src_port, c.ip_hdr.dst, c.dst_port, proto)
            is None,
    ensures
        ({
            let (t2, c2, r2) = spec_translate_outbound(t, c, now);
            forall|i: int|
                0 <= i < t2.entries.len() ==> !(#[trigger] t2.entries[i]).spec_is_expired(now)
        }),
{
    let pred = |e: NatEntry| !e.spec_is_expired(now);
    let kept = t.entries.filter(pred);
    broadcast use vstd::seq_lib::group_filter_ensures;

    let (t2, c2, r2) = spec_translate_outbound(t, c, now);
    assert(forall|j: int| 0 <= j < kept.len() ==> pred(#[trigger] kept[j]));
    if kept.len() < MAX_NAT_ENTRIES {
        assert(t2.entries.last().last_activity == now);
    }
}

/// The peak-usage high-water mark only ever grows: no translation step,
/// in either direction, lowers it.
pub proof fn lemma_peak_usage_monotone(t: NatTableView, c: PacketContext, now: u32)
    ensures
        spec_translate_outbound(t, c, now).0.peak_usage >= t.peak_usage,
        spec_translate_inbound(t, c, now).0.peak_usage >= t.peak_usage,
{
}

/// Outbound idempotence: translating the same outbound packet again, at
/// any later time, finds the flow the first translation left behind — the
/// table neither grows nor allocates another port, and the packet is
/// rewritten to the same external address and port both times.
pub proof fn lemma_outbound_idempotent(
    t: NatTableView,
    c: PacketContext,
    now: u32,
    now2: u32,
    proto: Protocol,
)
    requires
        t.inv(),
        t.configured,
        !spec_outbound_pass(t.config, c),
        Protocol::spec_from_u8(c.ip_hdr.proto) == Some(proto),
        spec_translate_outbound(t, c, now).2 == Ok::<(), NatError>(()),
    ensures
        ({
            let (t1, c1, r1) = spec_translate_outbound(t, c, now);
            let (t2, c2, r2) = spec_translate_outbound(t1, c, now2);
            &&& r2 == Ok::<(), NatError>(())
            &&& t2.entries.len() == t1.entries.len()
            &&& t2.next_port == t1.next_port
            &&& c2.ip_hdr.src == c1.ip_hdr.src
            &&& c2.src_port == c1.src_port
            &&& c2.needs_update && c1.needs_update
        }),
{
    let (t1, c1, r1) = spec_translate_outbound(t, c, now);
    match spec_find_outbound(t.entries, c.ip_hdr.src, c.src_port, c.ip_hdr.dst, c.dst_port, proto) {
        Some(i) => {
            // First call refreshed the entry at i; the refresh changes no
            // matching field, so the second call finds the same slot.
            let e = t.entries[i];
            let touched = e.spec_touched(now);
            assert(t1.entries == t.entries.update(i, touched));
            lemma_find_outbound_some(
                t.entries,
                0,
                i,
                c.ip_hdr.src,
                c.src_port,
                c.ip_hdr.dst,
                c.dst_port,
                proto,
            );
            assert(forall|j: int|
                0 <= j < i ==> t1.entries[j] == t.entries[j]);
            assert(t1.entries[i].spec_matches_outbound(
                c.ip_hdr.src,
                c.src_port,
                c.ip_hdr.dst,
                c.dst_port,
                proto,
            ));
            lemma_find_outbound_at(
                t1.entries,
                0,
                i,
                c.ip_hdr.src,
                c.src_port,
                c.ip_hdr.dst,
                c.dst_port,
                proto,
            );
        },
        None => {
            // First call created an entry at the end of the swept table;
            // nothing before it matches, so the second call finds it.
            let pred = |e: NatEntry| !e.spec_is_expired(now);
            let kept = t.entries.filter(pred);
            lemma_find_outbound_none(
                t.entries,
                0,
                c.ip_hdr.src,
                c.src_port,
                c.ip_hdr.dst,
                c.dst_port,
                proto,
            );
            assert(kept.len() < MAX_NAT_ENTRIES);
            assert(forall|j: int|
                0 <= j < kept.len() ==> !(#[trigger] kept[j]).spec_matches_outbound(
                    c.ip_hdr.src,
                    c.src_port,
                    c.ip_hdr.dst,
                    c.dst_port,
                    proto,
                )) by {
                assert forall|j: int|
                    0 <= j < kept.len() implies !(#[trigger] kept[j]).spec_matches_outbound(
                    c.ip_hdr.src,
                    c.src_port,
                    c.ip_hdr.dst,
                    c.dst_port,
                    proto,
                ) by {
                    lemma_filter_element_of(t.entries, pred, j);
                }
            }
            let k = kept.len() as int;
            assert(t1.entries[k].spec_matches_outbound(
                c.ip_hdr.src,
                c.src_port,
                c.ip_hdr.dst,
                c.dst_port,
                proto,
            ));
            lemma_find_outbound_at(
                t1.entries,
                0,
                k,
                c.ip_hdr.src,
                c.src_port,
                c.ip_hdr.dst,
                c.dst_port,
                proto,
            );
        },
    }
}

/// Mapping symmetry: an outbound packet that creates a flow installs
/// exactly the mapping that translates the matching inbound reply — same
/// remote endpoint, the allocated external port — back to the original
/// internal address and port.
pub proof fn lemma_mapping_symmetry(
    t: NatTableView,
    c: PacketContext,
    reply: PacketContext,
    now: u32,
    now2: u32,
    proto: Protocol,
)
    requires
        t.inv(),
        t.configured,
        !spec_outbound_pass(t.config, c),
        Protocol::spec_from_u8(c.ip_hdr.proto) == Some(proto),
        spec_find_outbound(t.entries, c.ip_hdr.src, c.src_port, c.ip_hdr.dst, c.dst_port, proto)
            is None,
        spec_translate_outbound(t, c, now).2 == Ok::<(), NatError>(()),
        reply.ip_hdr.src@ == c.ip_hdr.dst@,
        reply.src_port == c.dst_port,
        reply.ip_hdr.dst@ == t.config.external_ip@,
        reply.dst_port == spec_translate_outbound(t, c, now).1.src_port,
        Protocol::spec_from_u8(reply.ip_hdr.proto) == Some(proto),
        spec_find_inbound(t.entries, reply.ip_hdr.src, reply.src_port, reply.dst_port, proto)
            is None,
    ensures
        ({
            let (t1, c1, r1) = spec_translate_outbound(t, c, now);
            let (t2, c2, r2) = spec_translate_inbound(t1, reply, now2);
            &&& r2 == Ok::<(), NatError>(())
            &&& c2.ip_hdr.dst == c.ip_hdr.src
            &&& c2.dst_port == c.src_port
            &&& c2.needs_update
        }),
{
    let (t1, c1, r1) = spec_translate_outbound(t, c, now);
    let pred = |e: NatEntry| !e.spec_is_expired(now);
    let kept = t.entries.filter(pred);
    assert(kept.len() < MAX_NAT_ENTRIES);
    let k = kept.len() as int;
    lemma_find_inbound_none(t.entries, 0, reply.ip_hdr.src, reply.src_port, reply.dst_port, proto);
    assert(forall|j: int|
        0 <= j < kept.len() ==> !(#[trigger] kept[j]).spec_matches_inbound(
            reply.ip_hdr.src,
            reply.src_port,
            reply.dst_port,
            proto,
        )) by {
        assert forall|j: int|
            0 <= j < kept.len() implies !(#[trigger] kept[j]).spec_matches_inbound(
            reply.ip_hdr.src,
            reply.src_port,
            reply.dst_port,
            proto,
        ) by {
            lemma_filter_element_of(t.entries, pred, j);
        }
    }
    assert(t1.entries[k].spec_matches_inbound(
        reply.ip_hdr.src,
        reply.src_port,
        reply.dst_port,
        proto,
    ));
    lemma_find_inbound_at(
        t1.entries,
        0,
        k,
        reply.ip_hdr.src,
        reply.src_port,
        reply.dst_port,
        proto,
    );
}

} // verus!
