//! The connection-tracking table: classification of traffic, lookup,
//! flow creation with rotating port allocation, lazy expiry sweep, and the
//! outbound and inbound translation decisions.

use vstd::prelude::*;
use crate::entry::{ip_eq, zero_ip, NatEntry, Protocol};
use crate::packet::{Ipv4Hdr, PacketContext};
use crate::store::{
    slots, slots_get, slots_len, slots_new, slots_push, slots_set, MAX_NAT_ENTRIES,
};

verus! {

/// First port of the dynamic allocation range.
pub const PORT_RANGE_START: u16 = 50000;

/// Last port of the dynamic allocation range.
pub const PORT_RANGE_END: u16 = 65535;

/// Why a translation attempt failed.  A packet that cannot be parsed at
/// all never reaches translation: parsing reports that by returning no
/// context, and the hook turns it into a drop.
#[derive(Clone, Copy, Debug, PartialEq, Eq, Structural)]
pub enum NatError {
    /// The IP protocol number is none of TCP, UDP and ICMP.
    UnsupportedProtocol,
    /// No tracked flow matches an inbound packet — expected for unsolicited
    /// inbound traffic, not a fault.
    NoMatchingEntry,
    /// The table is at capacity with no expired entry left to reclaim.
    TableFull,
    /// Translation was attempted before a configuration was installed.
    NotConfigured,
}

/// Configuration of the translator: which sources count as internal, the
/// shared external identity, and the two interfaces.  Installed as a whole
/// snapshot before traffic flows.
#[derive(Clone, Copy, Debug)]
pub struct NatConfig {
    /// Internal (LAN) network address.
    pub internal_network: [u8; 4],
    /// Netmask delimiting the internal network.
    pub internal_netmask: [u8; 4],
    /// External (WAN) address: the shared public identity.
    pub external_ip: [u8; 4],
    /// Internal-facing interface; 0 when none is recorded.
    pub internal_iface: u32,
    /// External-facing interface; 0 when none is recorded.
    pub external_iface: u32,
}

impl NatConfig {
    /// The cleared configuration: all addresses zero, no interfaces.
    pub open spec fn spec_default() -> NatConfig {
        NatConfig {
            internal_network: zero_ip(),
            internal_netmask: zero_ip(),
            external_ip: zero_ip(),
            internal_iface: 0,
            external_iface: 0,
        }
    }
}

impl Default for NatConfig {
    /// Creates the cleared configuration.
    fn default() -> (r: Self)
        ensures
            r == Self::spec_default(),
    {
        Self {
            internal_network: [0u8; 4],
            internal_netmask: [0u8; 4],
            external_ip: [0u8; 4],
            internal_iface: 0,
            external_iface: 0,
        }
    }
}

/// Whether octet `i` of `ip` agrees with the internal network address under
/// the netmask.
pub open spec fn octet_internal(cfg: NatConfig, ip: [u8; 4], i: int) -> bool {
    ip@[i] & cfg.internal_netmask@[i] == cfg.internal_network@[i] & cfg.internal_netmask@[i]
}

/// Whether `ip` lies in the configured internal network.
pub open spec fn spec_is_internal(cfg: NatConfig, ip: [u8; 4]) -> bool {
    &&& octet_internal(cfg, ip, 0)
    &&& octet_internal(cfg, ip, 1)
    &&& octet_internal(cfg, ip, 2)
    &&& octet_internal(cfg, ip, 3)
}

/// Whether `ip` is an IPv4 multicast address: first octet 224 through 239.
pub open spec fn spec_is_multicast(ip: [u8; 4]) -> bool {
    224 <= ip@[0] <= 239
}

/// Whether `ip` is the limited broadcast address 255.255.255.255.
pub open spec fn spec_is_limited_broadcast(ip: [u8; 4]) -> bool {
    ip@[0] == 255 && ip@[1] == 255 && ip@[2] == 255 && ip@[3] == 255
}

/// Octet `i` of the subnet-directed broadcast address of the configured
/// internal network: the network bits with every host bit set.
pub open spec fn broadcast_octet(cfg: NatConfig, i: int) -> u8 {
    (cfg.internal_network@[i] & cfg.internal_netmask@[i]) | !cfg.internal_netmask@[i]
}

/// Whether `ip` is the subnet-directed broadcast address of the configured
/// internal network.
pub open spec fn spec_is_subnet_broadcast(cfg: NatConfig, ip: [u8; 4]) -> bool {
    &&& ip@[0] == broadcast_octet(cfg, 0)
    &&& ip@[1] == broadcast_octet(cfg, 1)
    &&& ip@[2] == broadcast_octet(cfg, 2)
    &&& ip@[3] == broadcast_octet(cfg, 3)
}

/// A stored slot always holds a live flow whose external port fits its
/// protocol: 0 for ICMP, inside the dynamic range for TCP and UDP.
pub open spec fn entry_slot_ok(e: NatEntry) -> bool {
    &&& e.in_use
    &&& (e.protocol == Protocol::Icmp ==> e.external_port == 0)
    &&& (e.protocol != Protocol::Icmp ==> PORT_RANGE_START <= e.external_port <= PORT_RANGE_END)
}

/// The abstract state of a translation table.
#[verifier::ext_equal]
pub struct NatTableView {
    /// Tracked flows, in insertion order.
    pub entries: Seq<NatEntry>,
    /// Port the rotating allocator hands out next.
    pub next_port: u16,
    /// Active configuration.
    pub config: NatConfig,
    /// Whether a configuration was installed.
    pub configured: bool,
    /// Peak number of concurrently tracked flows; it only ever grows.
    pub peak_usage: usize,
}

impl NatTableView {
    /// Well-formedness: the table never exceeds its capacity, the port
    /// cursor stays inside the dynamic range, and every stored slot holds a
    /// live flow with a protocol-appropriate external port.
    pub open spec fn inv(self) -> bool {
        &&& self.entries.len() <= MAX_NAT_ENTRIES
        &&& PORT_RANGE_START <= self.next_port <= PORT_RANGE_END
        &&& forall|i: int|
            0 <= i < self.entries.len() ==> entry_slot_ok(#[trigger] self.entries[i])
    }
}

/// Index of the first entry at or after `i` that matches the outbound
/// tuple.
pub open spec fn spec_find_outbound_from(
    s: Seq<NatEntry>,
    i: int,
    src_ip: [u8; 4],
    src_port: u16,
    dst_ip: [u8; 4],
    dst_port: u16,
    proto: Protocol,
) -> Option<int>
    decreases s.len() - i,
{
    if i < 0 || i >= s.len() {
        None
    } else if s[i].spec_matches_outbound(src_ip, src_port, dst_ip, dst_port, proto) {
        Some(i)
    } else {
        spec_find_outbound_from(s, i + 1, src_ip, src_port, dst_ip, dst_port, proto)
    }
}

/// Index of the first entry that matches the outbound tuple.
pub open spec fn spec_find_outbound(
    s: Seq<NatEntry>,
    src_ip: [u8; 4],
    src_port: u16,
    dst_ip: [u8; 4],
    dst_port: u16,
    proto: Protocol,
) -> Option<int> {
    spec_find_outbound_from(s, 0, src_ip, src_port, dst_ip, dst_port, proto)
}

/// Index of the first entry at or after `i` that matches the inbound tuple.
pub open spec fn spec_find_inbound_from(
    s: Seq<NatEntry>,
    i: int,
    src_ip: [u8; 4],
    src_port: u16,
    dst_port: u16,
    proto: Protocol,
) -> Option<int>
    decreases s.len() - i,
{
    if i < 0 || i >= s.len() {
        None
    } else if s[i].spec_matches_inbound(src_ip, src_port, dst_port, proto) {
        Some(i)
    } else {
        spec_find_inbound_from(s, i + 1, src_ip, src_port, dst_port, proto)
    }
}

/// Index of the first entry that matches the inbound tuple.
pub open spec fn spec_find_inbound(
    s: Seq<NatEntry>,
    src_ip: [u8; 4],
    src_port: u16,
    dst_port: u16,
    proto: Protocol,
) -> Option<int> {
    spec_find_inbound_from(s, 0, src_ip, src_port, dst_port, proto)
}

/// The connection-tracking table: a fixed-capacity store of flow slots, a
/// rotating next-port cursor, the active configuration, and the peak-usage
/// high-water mark.
pub struct NatTable {
    entries: heapless::Vec<NatEntry, MAX_NAT_ENTRIES>,
    next_port: u16,
    config: NatConfig,
    configured: bool,
    peak_usage: usize,
}

impl View for NatTable {
    type V = NatTableView;

    closed spec fn view(&self) -> NatTableView {
        NatTableView {
            entries: slots(self.entries),
            next_port: self.next_port,
            config: self.config,
            configured: self.configured,
            peak_usage: self.peak_usage,
        }
    }
}

impl NatTable {
    /// Creates an empty, unconfigured table whose allocator starts at the
    /// beginning of the dynamic port range.
    pub fn new() -> (r: Self)
        ensures
            r@ =~= (NatTableView {
                entries: Seq::<NatEntry>::empty(),
                next_port: PORT_RANGE_START,
                config: NatConfig::spec_default(),
                configured: false,
                peak_usage: 0,
            }),
            r@.inv(),
    {
        Self {
            entries: slots_new(),
            next_port: PORT_RANGE_START,
            config: NatConfig::default(),
            configured: false,
            peak_usage: 0,
        }
    }

    /// Installs a configuration as a full snapshot replace and marks the
    /// table configured; the peak-usage counter is refreshed in passing.
    pub fn set_config(&mut self, config: NatConfig)
        requires
            old(self)@.inv(),
        ensures
            final(self)@.inv(),
            final(self)@ =~= (NatTableView {
                config,
                configured: true,
                peak_usage: (if old(self)@.entries.len() > old(self)@.peak_usage {
                    old(self)@.entries.len() as usize
                } else {
                    old(self)@.peak_usage
                }),
                ..old(self)@
            }),
    {
        self.config = config;
        self.configured = true;
        let current = slots_len(&self.entries);
        if current > self.peak_usage {
            self.peak_usage = current;
        }
    }

    /// The number of tracked flows.
    pub fn entry_count(&self) -> (n: usize)
        ensures
            n == self@.entries.len(),
    {
        slots_len(&self.entries)
    }

    /// The tracked flow at slot `i`, if the table holds that many.
    pub fn entry_at(&self, i: usize) -> (r: Option<NatEntry>)
        ensures
            i < self@.entries.len() ==> r == Some(self@.entries[i as int]),
            i >= self@.entries.len() ==> r is None,
    {
        if i < slots_len(&self.entries) {
            Some(slots_get(&self.entries, i))
        } else {
            None
        }
    }

    /// Peak number of concurrently tracked flows seen so far.
    pub fn peak_entry_count(&self) -> (n: usize)
        ensures
            n == self@.peak_usage,
    {
        self.peak_usage
    }

    /// Checks whether `ip` lies in the configured internal network and is
    /// therefore eligible for translation.
    fn is_internal_ip(&self, ip: &[u8; 4]) -> (r: bool)
        ensures
            r == spec_is_internal(self@.config, *ip),
    {
        let net = &self.config.internal_network;
        let mask = &self.config.internal_netmask;
        (ip[0] & mask[0]) == (net[0] & mask[0]) && (ip[1] & mask[1]) == (net[1] & mask[1]) && (
        ip[2] & mask[2]) == (net[2] & mask[2]) && (ip[3] & mask[3]) == (net[3] & mask[3])
    }

    /// Checks whether `ip` is exactly the configured external address.
    fn is_external_ip(&self, ip: &[u8; 4]) -> (r: bool)
        ensures
            r == (ip@ == self@.config.external_ip@),
    {
        ip_eq(ip, &self.config.external_ip)
    }

    /// Checks whether `ip` is the subnet-directed broadcast address of the
    /// configured internal network.
    fn is_subnet_broadcast(&self, ip: &[u8; 4]) -> (r: bool)
        ensures
            r == spec_is_subnet_broadcast(self@.config, *ip),
    {
        let net = &self.config.internal_network;
        let mask = &self.config.internal_netmask;
        ip[0] == ((net[0] & mask[0]) | !mask[0]) && ip[1] == ((net[1] & mask[1]) | !mask[1])
            && ip[2] == ((net[2] & mask[2]) | !mask[2]) && ip[3] == ((net[3] & mask[3]) | !mask[3])
    }

    /// Finds the first tracked flow matching an outbound tuple.
    fn find_outbound(
        &self,
        src_ip: &[u8; 4],
        src_port: u16,
        dst_ip: &[u8; 4],
        dst_port: u16,
        proto: Protocol,
    ) -> (r: Option<usize>)
        ensures
            spec_find_outbound(self@.entries, *src_ip, src_port, *dst_ip, dst_port, proto) == (
            match r {
                Some(i) => Some(i as int),
                None => None::<int>,
            }),
            (r matches Some(i) ==> i < self@.entries.len()),
    {
        let n = slots_len(&self.entries);
        let mut i: usize = 0;
        while i < n
            invariant
                i <= n,
                n == self@.entries.len(),
                spec_find_outbound_from(
                    self@.entries,
                    0,
                    *src_ip,
                    src_port,
                    *dst_ip,
                    dst_port,
                    proto,
                ) == spec_find_outbound_from(
                    self@.entries,
                    i as int,
                    *src_ip,
                    src_port,
                    *dst_ip,
                    dst_port,
                    proto,
                ),
            decreases n - i,
        {
            let e = slots_get(&self.entries, i);
            if e.matches_outbound(src_ip, src_port, dst_ip, dst_port, proto) {
                return Some(i);
            }
            i = i + 1;
        }
        None
    }

    /// Finds the first tracked flow matching an inbound tuple.
    fn find_inbound(
        &self,
        src_ip: &[u8; 4],
        src_port: u16,
        dst_port: u16,
        proto: Protocol,
    ) -> (r: Option<usize>)
        ensures
            spec_find_inbound(self@.entries, *src_ip, src_port, dst_port, proto) == (match r {
                Some(i) => Some(i as int),
                None => None::<int>,
            }),
            (r matches Some(i) ==> i < self@.entries.len()),
    {
        let n = slots_len(&self.entries);
        let mut i: usize = 0;
        while i < n
            invariant
                i <= n,
                n == self@.entries.len(),
                spec_find_inbound_from(self@.entries, 0, *src_ip, src_port, dst_port, proto)
                    == spec_find_inbound_from(
                    self@.entries,
                    i as int,
                    *src_ip,
                    src_port,
                    dst_port,
                    proto,
                ),
            decreases n - i,
        {
            let e = slots_get(&self.entries, i);
            if e.matches_inbound(src_ip, src_port, dst_port, proto) {
                return Some(i);
            }
            i = i + 1;
        }
        None
    }

    /// Removes every entry that is expired at time `now`, keeping the fresh
    /// ones in order.
    fn cleanup(&mut self, now: u32)
        requires
            old(self)@.inv(),
        ensures
            final(self)@.inv(),
            final(self)@ =~= (NatTableView {
                entries: old(self)@.entries.filter(|e: NatEntry| !e.spec_is_expired(now)),
                ..old(self)@
            }),
    {
        let ghost orig: Seq<NatEntry> = self@.entries;
        let ghost pred = |e: NatEntry| !e.spec_is_expired(now);
        let n = slots_len(&self.entries);
        let mut kept = slots_new();
        let mut i: usize = 0;
        proof {
            assert(orig.take(0) =~= Seq::<NatEntry>::empty());
            reveal_with_fuel(Seq::<NatEntry>::filter, 2);
        }
        while i < n
            invariant
                i <= n,
                *self == *old(self),
                self@.inv(),
                n == orig.len(),
                orig == self@.entries,
                pred == (|e: NatEntry| !e.spec_is_expired(now)),
                slots(kept) == orig.take(i as int).filter(pred),
                slots(kept).len() <= i,
                forall|j: int|
                    0 <= j < slots(kept).len() ==> entry_slot_ok(#[trigger] slots(kept)[j]),
            decreases n - i,
        {
            let e = slots_get(&self.entries, i);
            let keep = !e.is_expired(now);
            proof {
                // One unfolding of `filter` at the longer prefix relates it
                // to the prefix already processed.
                reveal_with_fuel(Seq::<NatEntry>::filter, 2);
                let taken = orig.take(i + 1);
                assert(taken.drop_last() =~= orig.take(i as int));
                assert(taken.last() == orig[i as int]);
                if keep {
                    assert(taken.filter(pred) == orig.take(i as int).filter(pred).push(
                        orig[i as int],
                    ));
                } else {
                    assert(taken.filter(pred) == orig.take(i as int).filter(pred));
                }
            }
            if keep {
                let _ = slots_push(&mut kept, e);
            }
            i = i + 1;
        }
        proof {
            assert(orig.take(n as int) =~= orig);
        }
        self.entries = kept;
    }

    /// Hands out the next external port and advances the rotating cursor
    /// over the dynamic range, wrapping at its end.
    fn allocate_port(&mut self) -> (r: u16)
        requires
            old(self)@.inv(),
        ensures
            final(self)@.inv(),
            r == old(self)@.next_port,
            final(self)@ =~= (NatTableView {
                next_port: spec_next_port(old(self)@.next_port),
                ..old(self)@
            }),
    {
        let port = self.next_port;
        if self.next_port >= PORT_RANGE_END {
            self.next_port = PORT_RANGE_START;
        } else {
            self.next_port = self.next_port + 1;
        }
        port
    }
}


/// Everything the outbound policy gate lets pass through untranslated:
/// sources outside the internal network, intra-LAN traffic, multicast
/// destinations, and the limited and subnet-directed broadcast addresses.
pub open spec fn spec_outbound_pass(cfg: NatConfig, c: PacketContext) -> bool {
    ||| !spec_is_internal(cfg, c.ip_hdr.src)
    ||| spec_is_internal(cfg, c.ip_hdr.dst)
    ||| spec_is_multicast(c.ip_hdr.dst)
    ||| spec_is_limited_broadcast(c.ip_hdr.dst)
    ||| spec_is_subnet_broadcast(cfg, c.ip_hdr.dst)
}

/// The cursor position after one allocation: one higher, wrapping from the
/// end of the dynamic range back to its start.
pub open spec fn spec_next_port(p: u16) -> u16 {
    if p >= PORT_RANGE_END {
        PORT_RANGE_START
    } else {
        (p + 1) as u16
    }
}

/// The entry created for a new outbound flow: the packet's source becomes
/// the internal side, its destination the remote side, the configured
/// external address with the allocated port the mapping, and the interfaces
/// are captured from the packet's origin and the configuration.
pub open spec fn spec_new_entry(
    cfg: NatConfig,
    c: PacketContext,
    proto: Protocol,
    external_port: u16,
    now: u32,
) -> NatEntry {
    NatEntry {
        internal_ip: c.ip_hdr.src,
        internal_port: c.src_port,
        external_ip: cfg.external_ip,
        external_port: external_port,
        remote_ip: c.ip_hdr.dst,
        remote_port: c.dst_port,
        protocol: proto,
        last_activity: now,
        in_use: true,
        internal_iface: c.orig_iface,
        external_iface: cfg.external_iface,
    }
}

/// A context after its source has been rewritten to the external mapping:
/// source address and port replaced, the packet retargeted to the
/// external-side interface when one is recorded, and the dirty flag set.
pub open spec fn spec_rewrite_outbound(
    c: PacketContext,
    external_ip: [u8; 4],
    external_port: u16,
    ext_iface: u32,
) -> PacketContext {
    PacketContext {
        ip_hdr: Ipv4Hdr { src: external_ip, ..c.ip_hdr },
        src_port: external_port,
        needs_update: true,
        iface: if ext_iface != 0 {
            ext_iface
        } else {
            c.iface
        },
        ..c
    }
}

/// A context after its destination has been rewritten back to the internal
/// endpoint: destination address and port replaced, the packet retargeted
/// to the internal-side interface when one is recorded, and the dirty flag
/// set.
pub open spec fn spec_rewrite_inbound(
    c: PacketContext,
    internal_ip: [u8; 4],
    internal_port: u16,
    int_iface: u32,
) -> PacketContext {
    PacketContext {
        ip_hdr: Ipv4Hdr { dst: internal_ip, ..c.ip_hdr },
        dst_port: internal_port,
        needs_update: true,
        iface: if int_iface != 0 {
            int_iface
        } else {
            c.iface
        },
        ..c
    }
}

/// One outbound translation step over the abstract table state: the policy
/// gates in order, then either a refresh-and-rewrite on the first matching
/// flow, or an expiry sweep followed by port allocation and flow creation —
/// which fails explicitly when the swept table is still at capacity, with
/// the allocated port consumed either way.
pub open spec fn spec_translate_outbound(t: NatTableView, c: PacketContext, now: u32) -> (
    NatTableView,
    PacketContext,
    Result<(), NatError>,
) {
    if !t.configured {
        (t, c, Err(NatError::NotConfigured))
    } else if spec_outbound_pass(t.config, c) {
        (t, c, Ok(()))
    } else {
        match Protocol::spec_from_u8(c.ip_hdr.proto) {
            None => (t, c, Err(NatError::UnsupportedProtocol)),
            Some(proto) => match spec_find_outbound(
                t.entries,
                c.ip_hdr.src,
                c.src_port,
                c.ip_hdr.dst,
                c.dst_port,
                proto,
            ) {
                Some(i) => {
                    let e = t.entries[i];
                    (
                        NatTableView { entries: t.entries.update(i, e.spec_touched(now)), ..t },
                        spec_rewrite_outbound(c, e.external_ip, e.external_port, e.external_iface),
                        Ok(()),
                    )
                },
                None => {
                    let kept = t.entries.filter(|e: NatEntry| !e.spec_is_expired(now));
                    let external_port: u16 = if proto == Protocol::Icmp {
                        0
                    } else {
                        t.next_port
                    };
                    let next_port = if proto == Protocol::Icmp {
                        t.next_port
                    } else {
                        spec_next_port(t.next_port)
                    };
                    if kept.len() >= MAX_NAT_ENTRIES {
                        (
                            NatTableView { entries: kept, next_port, ..t },
                            c,
                            Err(NatError::TableFull),
                        )
                    } else {
                        let e = spec_new_entry(t.config, c, proto, external_port, now);
                        let entries = kept.push(e);
                        let peak: usize = if entries.len() > t.peak_usage {
                            entries.len() as usize
                        } else {
                            t.peak_usage
                        };
                        (
                            NatTableView { entries, next_port, peak_usage: peak, ..t },
                            spec_rewrite_outbound(
                                c,
                                t.config.external_ip,
                                external_port,
                                t.config.external_iface,
                            ),
                            Ok(()),
                        )
                    }
                },
            },
        }
    }
}

/// One inbound translation step over the abstract table state: packets not
/// addressed to the configured external address pass through; otherwise the
/// first flow matching the inbound tuple is refreshed and the packet's
/// destination rewritten back to the internal endpoint, and a lookup miss
/// is the explicit, benign no-match outcome.
pub open spec fn spec_translate_inbound(t: NatTableView, c: PacketContext, now: u32) -> (
    NatTableView,
    PacketContext,
    Result<(), NatError>,
) {
    if !t.configured {
        (t, c, Err(NatError::NotConfigured))
    } else if c.ip_hdr.dst@ != t.config.external_ip@ {
        (t, c, Ok(()))
    } else {
        match Protocol::spec_from_u8(c.ip_hdr.proto) {
            None => (t, c, Err(NatError::UnsupportedProtocol)),
            Some(proto) => match spec_find_inbound(
                t.entries,
                c.ip_hdr.src,
                c.src_port,
                c.dst_port,
                proto,
            ) {
                None => (t, c, Err(NatError::NoMatchingEntry)),
                Some(i) => {
                    let e = t.entries[i];
                    (
                        NatTableView { entries: t.entries.update(i, e.spec_touched(now)), ..t },
                        spec_rewrite_inbound(c, e.internal_ip, e.internal_port, e.internal_iface),
                        Ok(()),
                    )
                },
            },
        }
    }
}

impl NatTable {
    /// Translates an outbound (LAN to WAN) packet at time `now`.  Sources
    /// outside the internal network, intra-LAN traffic, multicast and
    /// broadcast destinations pass through untouched; an unrecognized
    /// protocol fails; a tracked flow is refreshed and the packet rewritten
    /// to its external mapping; a new flow triggers an expiry sweep, port
    /// allocation and entry creation, failing explicitly when the table
    /// stays full.  The result, the new table state and the rewritten
    /// context are exactly those of `spec_translate_outbound`.
    pub fn translate_outbound(&mut self, ctx: &mut PacketContext, now: u32) -> (r: Result<
        (),
        NatError,
    >)
        requires
            old(self)@.inv(),
        ensures
            final(self)@.inv(),
            ({
                let (t2, c2, r2) = spec_translate_outbound(old(self)@, *old(ctx), now);
                &&& final(self)@ =~= t2
                &&& *final(ctx) == c2
                &&& r == r2
            }),
    {
        if !self.configured {
            return Err(NatError::NotConfigured);
        }
        let src_internal = self.is_internal_ip(&ctx.ip_hdr.src);
        let dst_internal = self.is_internal_ip(&ctx.ip_hdr.dst);
        if !src_internal {
            return Ok(());
        }
        if dst_internal {
            return Ok(());
        }
        let dst = ctx.ip_hdr.dst;
        if dst[0] >= 224 && dst[0] <= 239 {
            return Ok(());
        }
        if dst[0] == 255 && dst[1] == 255 && dst[2] == 255 && dst[3] == 255 {
            return Ok(());
        }
        if self.is_subnet_broadcast(&dst) {
            return Ok(());
        }
        let proto = match Protocol::from_u8(ctx.ip_hdr.proto) {
            Some(p) => p,
            None => {
                return Err(NatError::UnsupportedProtocol);
            },
        };
        if let Some(idx) = self.find_outbound(
            &ctx.ip_hdr.src,
            ctx.src_port,
            &ctx.ip_hdr.dst,
            ctx.dst_port,
            proto,
        ) {
            let mut e = slots_get(&self.entries, idx);
            e.touch(now);
            slots_set(&mut self.entries, idx, e);
            ctx.ip_hdr.src = e.external_ip;
            ctx.src_port = e.external_port;
            if e.external_iface != 0 {
                ctx.iface = e.external_iface;
            }
            ctx.needs_update = true;
            return Ok(());
        }
        self.cleanup(now);
        let external_port: u16 = if proto == Protocol::Icmp {
            0
        } else {
            self.allocate_port()
        };
        let external_ip = self.config.external_ip;
        let mut e = NatEntry::new();
        e.internal_ip = ctx.ip_hdr.src;
        e.internal_port = ctx.src_port;
        e.external_ip = external_ip;
        e.external_port = external_port;
        e.remote_ip = ctx.ip_hdr.dst;
        e.remote_port = ctx.dst_port;
        e.protocol = proto;
        e.last_activity = now;
        e.in_use = true;
        e.internal_iface = ctx.orig_iface;
        e.external_iface = self.config.external_iface;
        match slots_push(&mut self.entries, e) {
            Ok(_) => {},
            Err(_) => {
                return Err(NatError::TableFull);
            },
        }
        ctx.ip_hdr.src = external_ip;
        ctx.src_port = external_port;
        if self.config.external_iface != 0 {
            ctx.iface = self.config.external_iface;
        }
        ctx.needs_update = true;
        let current = slots_len(&self.entries);
        if current > self.peak_usage {
            self.peak_usage = current;
        }
        Ok(())
    }

    /// Translates an inbound (WAN to LAN) packet at time `now`.  Packets
    /// not addressed to the configured external address pass through
    /// untouched; an unrecognized protocol fails; a lookup miss reports the
    /// benign no-match outcome; on a match the flow is refreshed and the
    /// packet's destination rewritten back to the internal endpoint.  The
    /// result, the new table state and the rewritten context are exactly
    /// those of `spec_translate_inbound`.
    pub fn translate_inbound(&mut self, ctx: &mut PacketContext, now: u32) -> (r: Result<
        (),
        NatError,
    >)
        requires
            old(self)@.inv(),
        ensures
            final(self)@.inv(),
            ({
                let (t2, c2, r2) = spec_translate_inbound(old(self)@, *old(ctx), now);
                &&& final(self)@ =~= t2
                &&& *final(ctx) == c2
                &&& r == r2
            }),
    {
        if !self.configured {
            return Err(NatError::NotConfigured);
        }
        if !self.is_external_ip(&ctx.ip_hdr.dst) {
            return Ok(());
        }
        let proto = match Protocol::from_u8(ctx.ip_hdr.proto) {
            Some(p) => p,
            None => {
                return Err(NatError::UnsupportedProtocol);
            },
        };
        let idx = match self.find_inbound(&ctx.ip_hdr.src, ctx.src_port, ctx.dst_port, proto) {
            Some(i) => i,
            None => {
                return Err(NatError::NoMatchingEntry);
            },
        };
        let mut e = slots_get(&self.entries, idx);
        e.touch(now);
        slots_set(&mut self.entries, idx, e);
        ctx.ip_hdr.dst = e.internal_ip;
        ctx.dst_port = e.internal_port;
        if e.internal_iface != 0 {
            ctx.iface = e.internal_iface;
        }
        ctx.needs_update = true;
        Ok(())
    }
}

} // verus!
