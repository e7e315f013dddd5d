//! The scan orchestrator: the record shape handed to callers, the order of
//! the final list, and the sequence of actions that a scan performs.

use vstd::prelude::*;
use vstd::seq_lib::*;

use crate::addr::{ipv4_text, ipv4_to_string, Ipv4Net};
use crate::arp::{arp_request_frame, build_arp_request};
use crate::collector::TargetDetails;
use crate::error::ScanError;
use crate::interface::{find_source_ip, ipv4_nets, ipv4_networks, InterfaceInfo};
use crate::mac::{mac_text, MacAddress};
use crate::network_iter::{all_addrs, NetworkIterator};
use crate::text_order::{lemma_lex_total, lemma_lex_trans, lex_le, str_le};

verus! {

/// One discovered host as handed to callers: texts only, an unresolved
/// hostname or vendor left empty.
pub struct Host {
    pub host: String,
    pub mac: String,
    pub vendor: String,
    pub hostname: String,
}

/// The text of an optional string, empty where there is none.
pub open spec fn text_or_empty(o: Option<String>) -> Seq<char> {
    match o {
        Some(s) => s@,
        None => Seq::empty(),
    }
}

/// The fields of a record: address, MAC, vendor, hostname.
pub open spec fn host_view(h: Host) -> (Seq<char>, Seq<char>, Seq<char>, Seq<char>) {
    (h.host@, h.mac@, h.vendor@, h.hostname@)
}

/// The record of a discovered host.
pub open spec fn record_of(t: TargetDetails) -> (Seq<char>, Seq<char>, Seq<char>, Seq<char>) {
    (ipv4_text(t.ipv4), mac_text(t.mac), text_or_empty(t.vendor), text_or_empty(t.hostname))
}

pub open spec fn hosts_view(v: Seq<Host>) -> Seq<(Seq<char>, Seq<char>, Seq<char>, Seq<char>)> {
    v.map_values(|h: Host| host_view(h))
}

pub open spec fn records_of(v: Seq<TargetDetails>) -> Seq<(Seq<char>, Seq<char>, Seq<char>, Seq<char>)> {
    v.map_values(|t: TargetDetails| record_of(t))
}

/// Whether records are in ascending order of their MAC texts.
pub open spec fn sorted_by_mac(v: Seq<(Seq<char>, Seq<char>, Seq<char>, Seq<char>)>) -> bool {
    forall|i: int, j: int| 0 <= i < j < v.len() ==> lex_le(#[trigger] v[i].1, #[trigger] v[j].1)
}

fn take_or_empty(o: &Option<String>) -> (r: String)
    ensures
        r@ == text_or_empty(*o),
{
    match o {
        Some(s) => s.clone(),
        None => String::new(),
    }
}

/// The record of one discovered host.
pub fn to_host(t: &TargetDetails) -> (r: Host)
    ensures
        host_view(r) == record_of(*t),
{
    Host {
        host: ipv4_to_string(t.ipv4),
        mac: t.mac.to_string(),
        vendor: take_or_empty(&t.vendor),
        hostname: take_or_empty(&t.hostname),
    }
}

/// The records of the discovered hosts, sorted by MAC text in ascending
/// lexicographic order.
pub fn finish_scan(target_details: &Vec<TargetDetails>) -> (r: Vec<Host>)
    ensures
        hosts_view(r@).to_multiset() == records_of(target_details@).to_multiset(),
        sorted_by_mac(hosts_view(r@)),
{
    broadcast use to_multiset_insert;

    let ghost all = records_of(target_details@);
    let mut found_hosts: Vec<Host> = Vec::new();
    let mut i: usize = 0;
    assert(hosts_view(found_hosts@) =~= all.subrange(0, 0));
    while i < target_details.len()
        invariant
            i <= target_details@.len(),
            all == records_of(target_details@),
            hosts_view(found_hosts@).to_multiset() == all.subrange(0, i as int).to_multiset(),
            sorted_by_mac(hosts_view(found_hosts@)),
        decreases target_details@.len() - i,
    {
        let host = to_host(&target_details[i]);
        let ghost v = hosts_view(found_hosts@);
        let mut p: usize = 0;
        while p < found_hosts.len() && str_le(found_hosts[p].mac.as_str(), host.mac.as_str())
            invariant
                p <= found_hosts@.len(),
                v == hosts_view(found_hosts@),
                forall|k: int| 0 <= k < p ==> lex_le(#[trigger] v[k].1, host.mac@),
            decreases found_hosts@.len() - p,
        {
            p = p + 1;
        }
        proof {
            let x = host_view(host);
            let w = v.insert(p as int, x);
            assert forall|a: int, b: int| 0 <= a < b < w.len() implies lex_le(#[trigger] w[a].1, #[trigger] w[b].1) by {
                if b < p {
                    assert(w[a] == v[a] && w[b] == v[b]);
                } else if b == p {
                    assert(w[a] == v[a]);
                } else if a == p {
                    assert(w[b] == v[b - 1]);
                    assert(!lex_le(v[p as int].1, x.1));
                    lemma_lex_total(v[p as int].1, x.1);
                    if b - 1 > p {
                        lemma_lex_trans(x.1, v[p as int].1, v[b - 1].1);
                    }
                } else if a < p {
                    assert(w[a] == v[a] && w[b] == v[b - 1]);
                } else {
                    assert(w[a] == v[a - 1] && w[b] == v[b - 1]);
                }
            }
            assert(all[i as int] == x);
        }
        found_hosts.insert(p, host);
        proof {
            assert(hosts_view(found_hosts@) =~= v.insert(p as int, host_view(host)));
            to_multiset_insert(v, p as int, host_view(host));
            to_multiset_build(all.subrange(0, i as int), all[i as int]);
            assert(all.subrange(0, i + 1) =~= all.subrange(0, i as int).push(all[i as int]));
        }
        i = i + 1;
    }
    proof {
        assert(all.subrange(0, all.len() as int) =~= all);
    }
    found_hosts
}

/// Number of full sweeps over the interface's networks.
pub const SWEEP_COUNT: u8 = 2;

/// Length of one wait step after the sweeps, in milliseconds.
pub const WAIT_STEP_MS: u64 = 100;

/// Total wait after the sweeps, in milliseconds.
pub const WAIT_CEILING_MS: u64 = 2000;

/// The position of the first interface of `interfaces` with `index`.
pub fn select_interface(interfaces: &Vec<InterfaceInfo>, index: u32) -> (r: Result<usize, ScanError>)
    ensures
        match r {
            Ok(k) => k < interfaces@.len() && interfaces@[k as int].index == index && forall|j: int|
                0 <= j < k ==> #[trigger] interfaces@[j].index != index,
            Err(e) => e == ScanError::InterfaceNotFound && forall|j: int|
                0 <= j < interfaces@.len() ==> #[trigger] interfaces@[j].index != index,
        },
{
    let mut k: usize = 0;
    while k < interfaces.len()
        invariant
            k <= interfaces@.len(),
            forall|j: int| 0 <= j < k ==> #[trigger] interfaces@[j].index != index,
        decreases interfaces@.len() - k,
    {
        if interfaces[k].index == index {
            return Ok(k);
        }
        k = k + 1;
    }
    Err(ScanError::InterfaceNotFound)
}

/// What the caller of a scan does next.
pub enum ScanAction {
    /// Transmit this frame on the channel's send half.
    Send(Vec<u8>),
    /// Sleep this many milliseconds.
    Sleep(u64),
    /// Set the collector's stop flag.
    Stop,
    /// Join the collector and shape its result with `finish_scan`.
    Join,
}

/// The phase of a scan.
#[derive(Clone, Copy, Debug, PartialEq, Eq, Structural)]
pub enum ScanPhase {
    Sending,
    Waiting,
    Stopped,
    Done,
}

/// The sending side of one scan: two sweeps of requests over the
/// interface's IPv4 networks, a bounded wait, the stop signal, the join.
pub struct ScanDriver {
    phase: ScanPhase,
    networks: Vec<Ipv4Net>,
    source_mac: MacAddress,
    source_ip: u32,
    sweep: u8,
    targets: NetworkIterator,
    slept_ms: u64,
}

impl ScanDriver {
    pub closed spec fn phase_spec(&self) -> ScanPhase {
        self.phase
    }

    pub closed spec fn source_mac_spec(&self) -> MacAddress {
        self.source_mac
    }

    pub closed spec fn source_ip_spec(&self) -> u32 {
        self.source_ip
    }

    /// Time slept so far after the sweeps.
    pub closed spec fn slept_spec(&self) -> nat {
        self.slept_ms as nat
    }

    /// The addresses still to be sent a request, in order, over the sweeps
    /// left.
    pub closed spec fn pending_spec(&self) -> Seq<u32> {
        self.targets@ + if self.sweep < SWEEP_COUNT {
            all_addrs(self.networks@)
        } else {
            Seq::empty()
        }
    }

    pub closed spec fn wf(&self) -> bool {
        &&& self.targets.wf()
        &&& 1 <= self.sweep <= SWEEP_COUNT
        &&& self.slept_ms <= WAIT_CEILING_MS
        &&& self.slept_ms % WAIT_STEP_MS == 0
        &&& self.phase == ScanPhase::Sending ==> self.slept_ms == 0
    }

    /// A scan on `interface`: it sends from the interface's MAC and the
    /// address of its first IPv4 network, to every address of its IPv4
    /// networks, twice. Fails where the interface has no MAC address, then
    /// where it has no IPv4 network.
    pub fn new(interface: &InterfaceInfo) -> (r: Result<ScanDriver, ScanError>)
        ensures
            interface.mac is None ==> r == Err::<ScanDriver, ScanError>(ScanError::NoMacAddress),
            interface.mac is Some && ipv4_nets(interface.ips@).len() == 0 ==> r == Err::<ScanDriver, ScanError>(
                ScanError::NoIpv4Address,
            ),
            interface.mac is Some && ipv4_nets(interface.ips@).len() > 0 ==> r is Ok,
            r is Ok ==> ({
                let d = r->Ok_0;
                &&& d.wf()
                &&& d.phase_spec() == ScanPhase::Sending
                &&& d.source_mac_spec() == interface.mac->Some_0
                &&& d.source_ip_spec() == ipv4_nets(interface.ips@)[0].addr
                &&& d.pending_spec() == all_addrs(ipv4_nets(interface.ips@)) + all_addrs(ipv4_nets(interface.ips@))
            }),
    {
        let source_mac = match interface.mac {
            Some(m) => m,
            None => {
                return Err(ScanError::NoMacAddress);
            },
        };
        let source_ip = match find_source_ip(interface) {
            Ok(ip) => ip,
            Err(e) => {
                return Err(e);
            },
        };
        let networks = ipv4_networks(interface);
        let targets = NetworkIterator::new(networks.as_slice());
        Ok(ScanDriver { phase: ScanPhase::Sending, networks, source_mac, source_ip, sweep: 1, targets, slept_ms: 0 })
    }

    pub fn phase(&self) -> (r: ScanPhase)
        ensures
            r == self.phase_spec(),
    {
        self.phase
    }

    /// The next address to send to, starting the second sweep where the
    /// first one is done.
    fn next_target(&mut self) -> (r: Option<u32>)
        requires
            old(self).wf(),
        ensures
            final(self).wf(),
            final(self).phase == old(self).phase,
            final(self).slept_ms == old(self).slept_ms,
            final(self).source_mac == old(self).source_mac,
            final(self).source_ip == old(self).source_ip,
            old(self).pending_spec().len() == 0 ==> r is None && final(self).pending_spec().len() == 0,
            old(self).pending_spec().len() > 0 ==> r == Some(old(self).pending_spec()[0])
                && final(self).pending_spec() == old(self).pending_spec().drop_first(),
    {
        let ghost pending = self.pending_spec();
        let a = self.targets.next();
        if a.is_some() {
            assert(self.pending_spec() =~= pending.drop_first());
            return a;
        }
        if self.sweep < SWEEP_COUNT {
            self.sweep = self.sweep + 1;
            self.targets = NetworkIterator::new(self.networks.as_slice());
            assert(pending =~= self.targets@);
            let b = self.targets.next();
            assert(self.pending_spec() =~= self.targets@);
            return b;
        }
        None
    }

    /// The next action of the scan, and the phase it leads to: a request
    /// to each pending address in turn; then sleeps of `WAIT_STEP_MS` up to
    /// `WAIT_CEILING_MS` in all; then the stop signal; then the join.
    pub fn next_action(&mut self) -> (r: ScanAction)
        requires
            old(self).wf(),
            old(self).phase_spec() != ScanPhase::Done,
        ensures
            final(self).wf(),
            final(self).source_mac_spec() == old(self).source_mac_spec(),
            final(self).source_ip_spec() == old(self).source_ip_spec(),
            old(self).phase_spec() == ScanPhase::Sending && old(self).pending_spec().len() > 0 ==> {
                &&& r matches ScanAction::Send(frame) && frame@ == arp_request_frame(
                    old(self).source_mac_spec(),
                    old(self).source_ip_spec(),
                    old(self).pending_spec()[0],
                )
                &&& final(self).phase_spec() == ScanPhase::Sending
                &&& final(self).pending_spec() == old(self).pending_spec().drop_first()
            },
            old(self).phase_spec() == ScanPhase::Sending && old(self).pending_spec().len() == 0 ==> {
                &&& r matches ScanAction::Sleep(ms) && ms == WAIT_STEP_MS
                &&& final(self).phase_spec() == ScanPhase::Waiting
                &&& final(self).slept_spec() == WAIT_STEP_MS
            },
            old(self).phase_spec() == ScanPhase::Waiting && old(self).slept_spec() < WAIT_CEILING_MS ==> {
                &&& r matches ScanAction::Sleep(ms) && ms == WAIT_STEP_MS
                &&& final(self).phase_spec() == ScanPhase::Waiting
                &&& final(self).slept_spec() == old(self).slept_spec() + WAIT_STEP_MS
            },
            old(self).phase_spec() == ScanPhase::Waiting && old(self).slept_spec() >= WAIT_CEILING_MS ==> {
                &&& r is Stop
                &&& final(self).phase_spec() == ScanPhase::Stopped
            },
            old(self).phase_spec() == ScanPhase::Stopped ==> {
                &&& r is Join
                &&& final(self).phase_spec() == ScanPhase::Done
            },
    {
        match self.phase {
            ScanPhase::Sending => {
                match self.next_target() {
                    Some(target) => {
                        let frame = build_arp_request(&self.source_mac, self.source_ip, target);
                        ScanAction::Send(frame)
                    },
                    None => {
                        self.phase = ScanPhase::Waiting;
                        self.slept_ms = WAIT_STEP_MS;
                        ScanAction::Sleep(WAIT_STEP_MS)
                    },
                }
            },
            ScanPhase::Waiting => {
                if self.slept_ms < WAIT_CEILING_MS {
                    self.slept_ms = self.slept_ms + WAIT_STEP_MS;
                    ScanAction::Sleep(WAIT_STEP_MS)
                } else {
                    self.phase = ScanPhase::Stopped;
                    ScanAction::Stop
                }
            },
            _ => {
                self.phase = ScanPhase::Done;
                ScanAction::Join
            },
        }
    }
}

} // verus!
