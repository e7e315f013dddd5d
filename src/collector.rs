//! The response collector: the receive loop's decisions, the discovery map
//! it fills, and the enrichment of each discovered host once it ends.

use std::collections::HashMap;

use vstd::prelude::*;
use vstd::std_specs::hash::spec_hash_map_iter;
use vstd::std_specs::iter::IteratorSpec;

use crate::addr::ipv4_text;
use crate::arp::{arp_sender, decode_arp, ArpReply};
use crate::hostname::{lookup_hostname, normalize_hostname, normalized_hostname};
use crate::mac::MacAddress;
use crate::vendor::{opt_text, vendor_lookup, Vendor};

verus! {

/// Read timeout of one receive call, in milliseconds: the stop flag is
/// checked again at least this often.
pub const DATALINK_RCV_TIMEOUT: u64 = 500;

/// Counters of a finished receive loop.
pub struct ResponseSummary {
    pub packet_count: usize,
    pub arp_count: usize,
    pub duration_ms: u128,
}

/// One discovered host.
pub struct TargetDetails {
    pub ipv4: u32,
    pub mac: MacAddress,
    pub hostname: Option<String>,
    pub vendor: Option<String>,
}

/// What one turn of the receive loop observed.
pub enum ReceiveEvent {
    /// The stop flag was found set.
    Stop,
    /// A frame was received.
    Frame(Vec<u8>),
    /// The receive call timed out without a frame.
    TimedOut,
    /// The receive call failed with any other error.
    Failed,
}

/// What the loop does next.
#[derive(Clone, Copy, Debug, PartialEq, Eq, Structural)]
pub enum LoopAction {
    /// Check the stop flag, then receive again.
    Receive,
    /// Leave the loop and enrich the hosts found.
    Finish,
    /// Leave the loop and report the receive error; nothing is kept.
    Abort,
}

/// The collector's phase.
#[derive(Clone, Copy, Debug, PartialEq, Eq, Structural)]
pub enum CollectorPhase {
    Running,
    Draining,
    Aborted,
}

/// The discovery map after one received frame: an ARP frame's sender
/// address maps to its sender MAC, replacing any MAC held before.
pub open spec fn after_frame(hosts: Map<u32, MacAddress>, frame: Seq<u8>) -> Map<u32, MacAddress> {
    match arp_sender(frame) {
        Some(r) => hosts.insert(r.sender_ipv4, r.sender_mac),
        None => hosts,
    }
}

/// The name that a lookup table holds for `ip`, if any.
pub open spec fn lookup_text(lookups: Map<u32, String>, ip: u32) -> Option<Seq<char>> {
    if lookups.contains_key(ip) {
        Some(lookups[ip]@)
    } else {
        None
    }
}

/// The state of a receive loop: its phase, the discovery map from each
/// IPv4 address to the MAC of its last reply, and its two counters.
pub struct Collector {
    phase: CollectorPhase,
    hosts: HashMap<u32, MacAddress>,
    packet_count: usize,
    arp_count: usize,
}

impl Collector {
    pub closed spec fn phase_spec(&self) -> CollectorPhase {
        self.phase
    }

    /// The discovery map.
    pub closed spec fn hosts_spec(&self) -> Map<u32, MacAddress> {
        self.hosts@
    }

    pub closed spec fn packet_count_spec(&self) -> nat {
        self.packet_count as nat
    }

    pub closed spec fn arp_count_spec(&self) -> nat {
        self.arp_count as nat
    }

    pub open spec fn wf(&self) -> bool {
        self.arp_count_spec() <= self.packet_count_spec()
    }

    /// A running collector with nothing received.
    pub fn new() -> (r: Collector)
        ensures
            r.wf(),
            r.phase_spec() == CollectorPhase::Running,
            r.hosts_spec() == Map::<u32, MacAddress>::empty(),
            r.packet_count_spec() == 0,
            r.arp_count_spec() == 0,
    {
        Collector { phase: CollectorPhase::Running, hosts: HashMap::new(), packet_count: 0, arp_count: 0 }
    }

    pub fn phase(&self) -> (r: CollectorPhase)
        ensures
            r == self.phase_spec(),
    {
        self.phase
    }

    pub fn packet_count(&self) -> (r: usize)
        ensures
            r == self.packet_count_spec(),
    {
        self.packet_count
    }

    pub fn arp_count(&self) -> (r: usize)
        ensures
            r == self.arp_count_spec(),
    {
        self.arp_count
    }

    /// Takes in one received frame: the frame counter grows by one; for an
    /// ARP frame, the ARP counter grows by one and its sender is recorded.
    pub fn record_frame(&mut self, frame: &[u8])
        requires
            old(self).wf(),
            old(self).packet_count_spec() < usize::MAX,
        ensures
            final(self).wf(),
            final(self).phase_spec() == old(self).phase_spec(),
            final(self).packet_count_spec() == old(self).packet_count_spec() + 1,
            final(self).arp_count_spec() == old(self).arp_count_spec() + if arp_sender(frame@) is Some {
                1int
            } else {
                0int
            },
            final(self).hosts_spec() == after_frame(old(self).hosts_spec(), frame@),
    {
        broadcast use vstd::std_specs::hash::group_hash_axioms;

        self.packet_count = self.packet_count + 1;
        match decode_arp(frame) {
            Some(reply) => {
                self.arp_count = self.arp_count + 1;
                self.hosts.insert(reply.sender_ipv4, reply.sender_mac);
            },
            None => {},
        }
    }

    /// The decision of one turn of the running loop, from what it observed.
    pub fn on_event(&mut self, event: ReceiveEvent) -> (r: LoopAction)
        requires
            old(self).wf(),
            old(self).phase_spec() == CollectorPhase::Running,
            event is Frame ==> old(self).packet_count_spec() < usize::MAX,
        ensures
            final(self).wf(),
            match event {
                ReceiveEvent::Stop => {
                    &&& r == LoopAction::Finish
                    &&& final(self).phase_spec() == CollectorPhase::Draining
                    &&& final(self).hosts_spec() == old(self).hosts_spec()
                    &&& final(self).packet_count_spec() == old(self).packet_count_spec()
                    &&& final(self).arp_count_spec() == old(self).arp_count_spec()
                },
                ReceiveEvent::TimedOut => {
                    &&& r == LoopAction::Receive
                    &&& final(self).phase_spec() == CollectorPhase::Running
                    &&& final(self).hosts_spec() == old(self).hosts_spec()
                    &&& final(self).packet_count_spec() == old(self).packet_count_spec()
                    &&& final(self).arp_count_spec() == old(self).arp_count_spec()
                },
                ReceiveEvent::Failed => {
                    &&& r == LoopAction::Abort
                    &&& final(self).phase_spec() == CollectorPhase::Aborted
                    &&& final(self).hosts_spec() == old(self).hosts_spec()
                    &&& final(self).packet_count_spec() == old(self).packet_count_spec()
                    &&& final(self).arp_count_spec() == old(self).arp_count_spec()
                },
                ReceiveEvent::Frame(frame) => {
                    &&& r == LoopAction::Receive
                    &&& final(self).phase_spec() == CollectorPhase::Running
                    &&& final(self).hosts_spec() == after_frame(old(self).hosts_spec(), frame@)
                    &&& final(self).packet_count_spec() == old(self).packet_count_spec() + 1
                    &&& final(self).arp_count_spec() == old(self).arp_count_spec() + if arp_sender(
                        frame@,
                    ) is Some {
                        1int
                    } else {
                        0int
                    }
                },
            },
    {
        match event {
            ReceiveEvent::Stop => {
                self.phase = CollectorPhase::Draining;
                LoopAction::Finish
            },
            ReceiveEvent::TimedOut => LoopAction::Receive,
            ReceiveEvent::Failed => {
                self.phase = CollectorPhase::Aborted;
                LoopAction::Abort
            },
            ReceiveEvent::Frame(frame) => {
                self.record_frame(frame.as_slice());
                LoopAction::Receive
            },
        }
    }

    /// Ends a drained loop: one record per discovered address, in no
    /// particular order, with the hostname kept from `lookups` (the name
    /// that a reverse lookup gave for each address; none where it failed)
    /// and, where the table is loaded, its vendor.
    pub fn finalize_with_lookups(self, lookups: &HashMap<u32, String>, vendor_list: &Vendor, duration_ms: u128) -> (r: (
        ResponseSummary,
        Vec<TargetDetails>,
    ))
        requires
            self.wf(),
            self.phase_spec() == CollectorPhase::Draining,
        ensures
            r.0.packet_count == self.packet_count_spec(),
            r.0.arp_count == self.arp_count_spec(),
            r.0.duration_ms == duration_ms,
            r.1@.len() == self.hosts_spec().dom().len(),
            forall|i: int|
                0 <= i < r.1@.len() ==> {
                    &&& self.hosts_spec().contains_key(#[trigger] r.1@[i].ipv4)
                    &&& r.1@[i].mac == self.hosts_spec()[r.1@[i].ipv4]
                    &&& opt_text(r.1@[i].hostname) == normalized_hostname(
                        r.1@[i].ipv4,
                        lookup_text(lookups@, r.1@[i].ipv4),
                    )
                    &&& opt_text(r.1@[i].vendor) == vendor_lookup(vendor_list@, r.1@[i].mac)
                },
            forall|i: int, j: int|
                0 <= i < r.1@.len() && 0 <= j < r.1@.len() && i != j ==> #[trigger] r.1@[i].ipv4
                    != #[trigger] r.1@[j].ipv4,
            forall|ip: u32|
                #[trigger] self.hosts_spec().contains_key(ip) ==> exists|i: int|
                    0 <= i < r.1@.len() && #[trigger] r.1@[i].ipv4 == ip,
    {
        broadcast use vstd::std_specs::hash::group_hash_axioms;

        let ghost m = self.hosts@;
        let mut details: Vec<TargetDetails> = Vec::new();
        for entry in it: self.hosts.iter()
            invariant
                m == self.hosts@,
                details@.len() == it.index(),
                it.seq() == spec_hash_map_iter(&self.hosts).remaining(),
                forall|k: int|
                    0 <= k < it.index() ==> {
                        &&& #[trigger] details@[k].ipv4 == *it.seq()[k].0
                        &&& details@[k].mac == *it.seq()[k].1
                        &&& opt_text(details@[k].hostname) == normalized_hostname(
                            details@[k].ipv4,
                            lookup_text(lookups@, details@[k].ipv4),
                        )
                        &&& opt_text(details@[k].vendor) == vendor_lookup(vendor_list@, details@[k].mac)
                    },
        {
            let (ip_ref, mac_ref) = entry;
            let ip = *ip_ref;
            let mac = *mac_ref;
            let lookup = match lookups.get(&ip) {
                Some(h) => Some(h.clone()),
                None => None,
            };
            assert(opt_text(lookup) == lookup_text(lookups@, ip));
            let hostname = normalize_hostname(ip, lookup);
            let vendor = if vendor_list.has_vendor_db() {
                vendor_list.search_by_mac(&mac)
            } else {
                None
            };
            let ghost before = details@;
            details.push(TargetDetails { ipv4: ip, mac, hostname, vendor });
            assert forall|k: int| 0 <= k < before.len() implies #[trigger] details@[k] == before[k] by {}
        }
        proof {
            let v = spec_hash_map_iter(&self.hosts).remaining();
            assert(v.len() == m.dom().len());
            assert forall|i: int| 0 <= i < details@.len() implies m.contains_key(#[trigger] details@[i].ipv4)
                && details@[i].mac == m[details@[i].ipv4] by {
                assert(m.contains_key(*v[i].0) && m[*v[i].0] == *v[i].1);
            }
            assert forall|i: int, j: int|
                0 <= i < details@.len() && 0 <= j < details@.len() && i != j implies #[trigger] details@[i].ipv4
                != #[trigger] details@[j].ipv4 by {
                assert(m.contains_key(*v[i].0) && m[*v[i].0] == *v[i].1);
                assert(m.contains_key(*v[j].0) && m[*v[j].0] == *v[j].1);
                assert(v.no_duplicates());
                if *v[i].0 == *v[j].0 {
                    assert(v[i] == v[j]);
                }
            }
            assert forall|ip: u32| #[trigger] m.contains_key(ip) implies exists|i: int|
                0 <= i < details@.len() && #[trigger] details@[i].ipv4 == ip by {
                assert(v.contains((&ip, &m[ip])));
                let i = choose|i: int| 0 <= i < v.len() && v[i] == (&ip, &m[ip]);
                assert(details@[i].ipv4 == ip);
            }
        }
        let summary = ResponseSummary {
            packet_count: self.packet_count,
            arp_count: self.arp_count,
            duration_ms,
        };
        (summary, details)
    }

    /// Ends a drained loop: one record per discovered address, in no
    /// particular order, with its hostname by reverse DNS and, where the
    /// table is loaded, its vendor.
    pub fn finalize(self, vendor_list: &Vendor, duration_ms: u128) -> (r: (ResponseSummary, Vec<TargetDetails>))
        requires
            self.wf(),
            self.phase_spec() == CollectorPhase::Draining,
        ensures
            r.0.packet_count == self.packet_count_spec(),
            r.0.arp_count == self.arp_count_spec(),
            r.0.duration_ms == duration_ms,
            r.1@.len() == self.hosts_spec().dom().len(),
            forall|i: int|
                0 <= i < r.1@.len() ==> {
                    &&& self.hosts_spec().contains_key(#[trigger] r.1@[i].ipv4)
                    &&& r.1@[i].mac == self.hosts_spec()[r.1@[i].ipv4]
                    &&& r.1@[i].hostname is Some ==> r.1@[i].hostname->Some_0@ != ipv4_text(r.1@[i].ipv4)
                    &&& opt_text(r.1@[i].vendor) == vendor_lookup(vendor_list@, r.1@[i].mac)
                },
            forall|i: int, j: int|
                0 <= i < r.1@.len() && 0 <= j < r.1@.len() && i != j ==> #[trigger] r.1@[i].ipv4
                    != #[trigger] r.1@[j].ipv4,
            forall|ip: u32|
                #[trigger] self.hosts_spec().contains_key(ip) ==> exists|i: int|
                    0 <= i < r.1@.len() && #[trigger] r.1@[i].ipv4 == ip,
    {
        broadcast use vstd::std_specs::hash::group_hash_axioms;

        let mut lookups: HashMap<u32, String> = HashMap::new();
        for ip_ref in self.hosts.keys() {
            let ip = *ip_ref;
            match lookup_hostname(ip) {
                Some(name) => {
                    lookups.insert(ip, name);
                },
                None => {},
            }
        }
        self.finalize_with_lookups(&lookups, vendor_list, duration_ms)
    }
}

/// Two ARP replies from one IPv4 address, the first with MAC `a` and the
/// second with MAC `b`, received in that order, leave exactly one entry for
/// that address, and it holds `b`; other addresses keep their entries.
pub proof fn lemma_later_reply_overwrites(
    hosts: Map<u32, MacAddress>,
    first: Seq<u8>,
    second: Seq<u8>,
    ip: u32,
    a: MacAddress,
    b: MacAddress,
)
    requires
        arp_sender(first) == Some(ArpReply { sender_ipv4: ip, sender_mac: a }),
        arp_sender(second) == Some(ArpReply { sender_ipv4: ip, sender_mac: b }),
    ensures
        after_frame(after_frame(hosts, first), second) == hosts.insert(ip, b),
        after_frame(after_frame(hosts, first), second)[ip] == b,
{
    assert(hosts.insert(ip, a).insert(ip, b) =~= hosts.insert(ip, b));
}

} // verus!
