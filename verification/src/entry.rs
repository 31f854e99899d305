//! A single tracked flow: its translation state, the matching rules for
//! outbound and inbound packets, and the idle-expiry policy.

use vstd::prelude::*;

verus! {

/// Idle timeout for TCP flows, in milliseconds.
pub const NAT_TIMEOUT_TCP_MS: u32 = 45_000;

/// Idle timeout for UDP flows, in milliseconds.
pub const NAT_TIMEOUT_UDP_MS: u32 = 30_000;

/// Idle timeout for ICMP flows, in milliseconds.
pub const NAT_TIMEOUT_ICMP_MS: u32 = 20_000;

/// The transport protocols the translator tracks.  Any other IP protocol
/// number is rejected rather than represented.
#[derive(Clone, Copy, Debug, PartialEq, Eq, Structural)]
pub enum Protocol {
    Tcp,
    Udp,
    Icmp,
}

impl Protocol {
    /// The protocol denoted by an IP protocol number: 6 is TCP, 17 is UDP,
    /// 1 is ICMP; every other number is unsupported.
    pub open spec fn spec_from_u8(val: u8) -> Option<Protocol> {
        if val == 6 {
            Some(Protocol::Tcp)
        } else if val == 17 {
            Some(Protocol::Udp)
        } else if val == 1 {
            Some(Protocol::Icmp)
        } else {
            None
        }
    }

    /// Resolves an IP protocol number to a tracked protocol.
    pub fn from_u8(val: u8) -> (r: Option<Self>)
        ensures
            r == Self::spec_from_u8(val),
    {
        match val {
            6 => Some(Protocol::Tcp),
            17 => Some(Protocol::Udp),
            1 => Some(Protocol::Icmp),
            _ => None,
        }
    }

    /// The fixed idle timeout of this protocol, in milliseconds.
    pub open spec fn spec_timeout_ms(self) -> u32 {
        match self {
            Protocol::Tcp => NAT_TIMEOUT_TCP_MS,
            Protocol::Udp => NAT_TIMEOUT_UDP_MS,
            Protocol::Icmp => NAT_TIMEOUT_ICMP_MS,
        }
    }

    /// Returns the idle timeout of this protocol, in milliseconds.
    pub fn timeout_ms(self) -> (r: u32)
        ensures
            r == self.spec_timeout_ms(),
    {
        match self {
            Protocol::Tcp => NAT_TIMEOUT_TCP_MS,
            Protocol::Udp => NAT_TIMEOUT_UDP_MS,
            Protocol::Icmp => NAT_TIMEOUT_ICMP_MS,
        }
    }
}

/// One tracked flow's translation state.
#[derive(Clone, Copy, Debug)]
pub struct NatEntry {
    /// Internal (LAN-side) address of the flow's originator.
    pub internal_ip: [u8; 4],
    /// Internal (LAN-side) port, or the ICMP identifier for ICMP flows.
    pub internal_port: u16,
    /// External (WAN-side) address: the shared public identity.
    pub external_ip: [u8; 4],
    /// External (WAN-side) port the flow was mapped to; fixed at 0 for ICMP.
    pub external_port: u16,
    /// Remote address the flow talks to.
    pub remote_ip: [u8; 4],
    /// Remote port; for ICMP this slot carries the sequence number and is
    /// ignored when matching.
    pub remote_port: u16,
    /// Protocol of the flow.
    pub protocol: Protocol,
    /// Monotonic uptime, in milliseconds, of the last packet seen in either
    /// direction.
    pub last_activity: u32,
    /// Whether the slot holds a live flow.
    pub in_use: bool,
    /// Interface the flow entered on (LAN side); 0 when none was recorded.
    pub internal_iface: u32,
    /// Interface translated packets leave on (WAN side); 0 when none was
    /// recorded.
    pub external_iface: u32,
}

/// Whether two 4-byte addresses are equal.
pub fn ip_eq(a: &[u8; 4], b: &[u8; 4]) -> (r: bool)
    ensures
        r == (a@ == b@),
{
    let r = a[0] == b[0] && a[1] == b[1] && a[2] == b[2] && a[3] == b[3];
    proof {
        if r {
            assert(a@ =~= b@);
        } else {
            assert(a@ != b@);
        }
    }
    r
}

/// The all-zero address.
pub open spec fn zero_ip() -> [u8; 4] {
    vstd::array::spec_array_fill_for_copy_type::<u8, 4>(0u8)
}

impl NatEntry {
    /// The state of a free slot: not in use, all fields cleared.
    pub open spec fn spec_new() -> NatEntry {
        NatEntry {
            internal_ip: zero_ip(),
            internal_port: 0,
            external_ip: zero_ip(),
            external_port: 0,
            remote_ip: zero_ip(),
            remote_port: 0,
            protocol: Protocol::Tcp,
            last_activity: 0,
            in_use: false,
            internal_iface: 0,
            external_iface: 0,
        }
    }

    /// Creates a cleared, unused entry.
    pub fn new() -> (r: Self)
        ensures
            r == Self::spec_new(),
    {
        Self {
            internal_ip: [0u8; 4],
            internal_port: 0,
            external_ip: [0u8; 4],
            external_port: 0,
            remote_ip: [0u8; 4],
            remote_port: 0,
            protocol: Protocol::Tcp,
            last_activity: 0,
            in_use: false,
            internal_iface: 0,
            external_iface: 0,
        }
    }

    /// Whether this entry tracks the flow of an outbound packet: the entry
    /// is live, the protocol and the internal and remote addresses match,
    /// and the ports match as the protocol demands — both ports for TCP and
    /// UDP, only the ICMP identifier (carried in the source-port slot) for
    /// ICMP, whose destination slot holds a sequence number.
    pub open spec fn spec_matches_outbound(
        self,
        src_ip: [u8; 4],
        src_port: u16,
        dst_ip: [u8; 4],
        dst_port: u16,
        proto: Protocol,
    ) -> bool {
        &&& self.in_use
        &&& self.protocol == proto
        &&& self.internal_ip@ == src_ip@
        &&& self.remote_ip@ == dst_ip@
        &&& match proto {
            Protocol::Icmp => self.internal_port == src_port,
            Protocol::Tcp | Protocol::Udp => self.internal_port == src_port && self.remote_port
                == dst_port,
        }
    }

    /// Checks whether this entry matches an outbound packet.
    pub fn matches_outbound(
        &self,
        src_ip: &[u8; 4],
        src_port: u16,
        dst_ip: &[u8; 4],
        dst_port: u16,
        proto: Protocol,
    ) -> (r: bool)
        ensures
            r == self.spec_matches_outbound(*src_ip, src_port, *dst_ip, dst_port, proto),
    {
        if !self.in_use || self.protocol != proto {
            return false;
        }
        if !ip_eq(&self.internal_ip, src_ip) || !ip_eq(&self.remote_ip, dst_ip) {
            return false;
        }
        match proto {
            Protocol::Icmp => self.internal_port == src_port,
            Protocol::Tcp | Protocol::Udp => self.internal_port == src_port && self.remote_port
                == dst_port,
        }
    }

    /// Whether this entry tracks the flow an inbound packet replies to: the
    /// entry is live, the protocol and the remote address match, the
    /// packet's destination port is the entry's external mapping, and for
    /// TCP and UDP the remote port matches too; ICMP needs no remote-port
    /// check.
    pub open spec fn spec_matches_inbound(
        self,
        src_ip: [u8; 4],
        src_port: u16,
        dst_port: u16,
        proto: Protocol,
    ) -> bool {
        &&& self.in_use
        &&& self.protocol == proto
        &&& self.remote_ip@ == src_ip@
        &&& self.external_port == dst_port
        &&& match proto {
            Protocol::Icmp => true,
            Protocol::Tcp | Protocol::Udp => self.remote_port == src_port,
        }
    }

    /// Checks whether this entry matches an inbound packet.
    pub fn matches_inbound(
        &self,
        src_ip: &[u8; 4],
        src_port: u16,
        dst_port: u16,
        proto: Protocol,
    ) -> (r: bool)
        ensures
            r == self.spec_matches_inbound(*src_ip, src_port, dst_port, proto),
    {
        if !self.in_use || self.protocol != proto {
            return false;
        }
        if !ip_eq(&self.remote_ip, src_ip) {
            return false;
        }
        if self.external_port != dst_port {
            return false;
        }
        match proto {
            Protocol::Icmp => true,
            Protocol::Tcp | Protocol::Udp => self.remote_port == src_port,
        }
    }

    /// The entry with its activity timestamp refreshed to `now`.
    pub open spec fn spec_touched(self, now: u32) -> NatEntry {
        NatEntry { last_activity: now, ..self }
    }

    /// Refreshes the activity timestamp.
    pub fn touch(&mut self, now: u32)
        ensures
            *final(self) == old(self).spec_touched(now),
    {
        self.last_activity = now;
    }

    /// Whether the entry is expired at time `now`: a free slot always is; a
    /// live flow is expired once its idle time — saturating at zero if the
    /// clock reads earlier than the last activity — strictly exceeds the
    /// protocol's timeout.
    pub open spec fn spec_is_expired(self, now: u32) -> bool {
        ||| !self.in_use
        ||| (if now >= self.last_activity {
            now - self.last_activity
        } else {
            0
        }) > self.protocol.spec_timeout_ms()
    }

    /// Checks whether the entry is expired at time `now`.
    pub fn is_expired(&self, now: u32) -> (r: bool)
        ensures
            r == self.spec_is_expired(now),
    {
        if !self.in_use {
            return true;
        }
        let timeout_ms = self.protocol.timeout_ms();
        let idle = if now >= self.last_activity {
            now - self.last_activity
        } else {
            0
        };
        idle > timeout_ms
    }
}

/// Expiry boundary: a live flow whose last activity was at time `t` is
/// still fresh when the clock reads exactly `t` plus its protocol's
/// timeout, and expired one millisecond later — the boundary is a strict
/// "greater than".
pub proof fn lemma_expiry_boundary(e: NatEntry, t: u32)
    requires
        e.in_use,
        e.last_activity == t,
        t + e.protocol.spec_timeout_ms() + 1 <= u32::MAX,
    ensures
        !e.spec_is_expired((t + e.protocol.spec_timeout_ms()) as u32),
        e.spec_is_expired((t + e.protocol.spec_timeout_ms() + 1) as u32),
{
}

} // verus!
