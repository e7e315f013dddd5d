//! Network interfaces as the scan sees them, and the choices made on them:
//! which ones are offered, which one is a default, which address a scan
//! sends from.

use vstd::prelude::*;
use vstd::string::*;

use crate::addr::Ipv4Net;
use crate::error::ScanError;
use crate::mac::MacAddress;

verus! {

/// A network bound to an interface.
#[derive(Clone, Copy, Debug, PartialEq, Eq, Structural)]
pub enum IpNet {
    V4(Ipv4Net),
    V6,
}

/// What the scan reads of a network interface.
pub struct InterfaceInfo {
    pub name: String,
    pub description: String,
    pub index: u32,
    pub mac: Option<MacAddress>,
    pub ips: Vec<IpNet>,
    pub is_up: bool,
    pub is_loopback: bool,
}

/// An interface offered for a scan: a display name and its index.
pub struct SelectInterface {
    pub name: String,
    pub index: u32,
}

/// Whether some network of `ips` is an IPv4 one.
pub open spec fn has_ipv4(ips: Seq<IpNet>) -> bool {
    exists|i: int| 0 <= i < ips.len() && #[trigger] ips[i] is V4
}

/// Whether an interface is a likely default: it has a MAC address, is up,
/// is no loopback, and has an IPv4 network.
pub open spec fn is_default_spec(i: InterfaceInfo) -> bool {
    &&& i.mac is Some
    &&& i.ips@.len() > 0
    &&& i.is_up
    &&& !i.is_loopback
    &&& has_ipv4(i.ips@)
}

/// The IPv4 networks of a list, in order.
pub open spec fn ipv4_nets(ips: Seq<IpNet>) -> Seq<Ipv4Net>
    decreases ips.len(),
{
    if ips.len() == 0 {
        Seq::empty()
    } else {
        let rest = ipv4_nets(ips.drop_last());
        match ips.last() {
            IpNet::V4(n) => rest.push(n),
            IpNet::V6 => rest,
        }
    }
}

/// Whether `interface` is a likely default interface.
pub fn is_default_interface(interface: &InterfaceInfo) -> (r: bool)
    ensures
        r == is_default_spec(*interface),
{
    if interface.mac.is_none() {
        return false;
    }
    if interface.ips.len() == 0 || !interface.is_up || interface.is_loopback {
        return false;
    }
    let mut i: usize = 0;
    while i < interface.ips.len()
        invariant
            i <= interface.ips@.len(),
            interface.mac is Some,
            interface.ips@.len() > 0,
            interface.is_up,
            !interface.is_loopback,
            forall|k: int| 0 <= k < i ==> !(#[trigger] interface.ips@[k] is V4),
        decreases interface.ips@.len() - i,
    {
        if let IpNet::V4(_) = interface.ips[i] {
            assert(interface.ips@[i as int] is V4);
            return true;
        }
        i = i + 1;
    }
    false
}

/// The IPv4 networks of `interface`, in order.
pub fn ipv4_networks(interface: &InterfaceInfo) -> (r: Vec<Ipv4Net>)
    ensures
        r@ == ipv4_nets(interface.ips@),
{
    let mut nets: Vec<Ipv4Net> = Vec::new();
    let mut i: usize = 0;
    while i < interface.ips.len()
        invariant
            i <= interface.ips@.len(),
            nets@ == ipv4_nets(interface.ips@.subrange(0, i as int)),
        decreases interface.ips@.len() - i,
    {
        assert(interface.ips@.subrange(0, i + 1).drop_last() =~= interface.ips@.subrange(0, i as int));
        if let IpNet::V4(n) = interface.ips[i] {
            nets.push(n);
        }
        i = i + 1;
    }
    assert(interface.ips@.subrange(0, interface.ips@.len() as int) =~= interface.ips@);
    nets
}

/// The address that a scan on `interface` sends from: the address of its
/// first IPv4 network.
pub fn find_source_ip(network_interface: &InterfaceInfo) -> (r: Result<u32, ScanError>)
    ensures
        ipv4_nets(network_interface.ips@).len() > 0 ==> r == Ok::<u32, ScanError>(ipv4_nets(network_interface.ips@)[0].addr),
        ipv4_nets(network_interface.ips@).len() == 0 ==> r == Err::<u32, ScanError>(ScanError::NoIpv4Address),
{
    let nets = ipv4_networks(network_interface);
    if nets.len() == 0 {
        Err(ScanError::NoIpv4Address)
    } else {
        Ok(nets[0].addr)
    }
}

/// The lower-case form of a text, as `str::to_lowercase` gives it.
pub uninterp spec fn lower_of(s: Seq<char>) -> Seq<char>;

/// Relies on `str::to_lowercase`: the result depends on the characters
/// alone.
#[verifier::external_body]
fn lowercase(s: &str) -> (r: String)
    ensures
        r@ == lower_of(s@),
{
    s.to_lowercase()
}

/// Whether `p` occurs in `s` as a run of consecutive characters.
pub open spec fn contains_text(s: Seq<char>, p: Seq<char>) -> bool {
    exists|i: int| 0 <= i && i + p.len() <= s.len() && #[trigger] s.subrange(i, i + p.len()) == p
}

/// Whether `p` occurs in `s`.
pub fn contains_str(s: &str, p: &str) -> (r: bool)
    ensures
        r == contains_text(s@, p@),
{
    let n = s.unicode_len();
    let m = p.unicode_len();
    if m > n {
        return false;
    }
    let mut i: usize = 0;
    while i <= n - m
        invariant
            n == s@.len(),
            m == p@.len(),
            m <= n,
            i <= n - m + 1,
            forall|j: int| 0 <= j < i ==> #[trigger] s@.subrange(j, j + m) != p@,
        decreases n - m + 1 - i,
    {
        let mut k: usize = 0;
        while k < m && s.get_char(i + k) == p.get_char(k)
            invariant
                n == s@.len(),
                m == p@.len(),
                i + m <= n,
                k <= m,
                forall|t: int| 0 <= t < k ==> s@[i + t] == p@[t],
            decreases m - k,
        {
            k = k + 1;
        }
        if k == m {
            assert(s@.subrange(i as int, i + m) =~= p@);
            return true;
        }
        assert(s@.subrange(i as int, i + m)[k as int] != p@[k as int]);
        i = i + 1;
    }
    proof {
        assert forall|j: int| 0 <= j && j + p@.len() <= s@.len() implies #[trigger] s@.subrange(j, j + p@.len()) != p@ by {
            assert(j < i);
        }
    }
    false
}

/// Whether a lower-cased description names a Bluetooth device.
pub fn mentions_bluetooth(lowered: &str) -> (r: bool)
    ensures
        r == contains_text(lowered@, "bluetooth"@),
{
    contains_str(lowered, "bluetooth")
}

/// Whether an interface is offered: its description does not name a
/// Bluetooth device, in any case.
pub open spec fn offered(i: InterfaceInfo) -> bool {
    !contains_text(lower_of(i.description@), "bluetooth"@)
}

pub open spec fn offered_default(i: InterfaceInfo) -> bool {
    offered(i) && is_default_spec(i)
}

pub open spec fn offered_other(i: InterfaceInfo) -> bool {
    offered(i) && !is_default_spec(i)
}

/// The offered default interfaces, in order.
pub open spec fn default_ifaces(raw: Seq<InterfaceInfo>) -> Seq<InterfaceInfo> {
    raw.filter(|i: InterfaceInfo| offered_default(i))
}

/// The other offered interfaces, in order.
pub open spec fn other_ifaces(raw: Seq<InterfaceInfo>) -> Seq<InterfaceInfo> {
    raw.filter(|i: InterfaceInfo| offered_other(i))
}

/// The name an interface is offered under: its description, or its name
/// where the description is empty; with its index.
pub open spec fn select_view(i: InterfaceInfo) -> (Seq<char>, u32) {
    (if i.description@.len() == 0 { i.name@ } else { i.description@ }, i.index)
}

/// The offer made for each interface of a list.
pub open spec fn select_views(s: Seq<InterfaceInfo>) -> Seq<(Seq<char>, u32)> {
    s.map_values(|i: InterfaceInfo| select_view(i))
}

/// The offers made of a list of interfaces: the offered ones, defaults
/// first, each group in list order.
pub open spec fn offers(raw: Seq<InterfaceInfo>) -> Seq<(Seq<char>, u32)> {
    select_views(default_ifaces(raw) + other_ifaces(raw))
}

proof fn lemma_groups_push(s: Seq<InterfaceInfo>, x: InterfaceInfo)
    ensures
        default_ifaces(s.push(x)) == if offered_default(x) {
            default_ifaces(s).push(x)
        } else {
            default_ifaces(s)
        },
        other_ifaces(s.push(x)) == if offered_other(x) {
            other_ifaces(s).push(x)
        } else {
            other_ifaces(s)
        },
{
    s.lemma_filter_push(x, |i: InterfaceInfo| offered_default(i));
    s.lemma_filter_push(x, |i: InterfaceInfo| offered_other(i));
}

proof fn lemma_select_views_push(s: Seq<InterfaceInfo>, x: InterfaceInfo)
    ensures
        select_views(s.push(x)) == select_views(s).push(select_view(x)),
{
    assert(select_views(s.push(x)) =~= select_views(s).push(select_view(x)));
}

proof fn lemma_selects_view_push(s: Seq<SelectInterface>, x: SelectInterface)
    ensures
        selects_view(s.push(x)) == selects_view(s).push((x.name@, x.index)),
{
    assert(selects_view(s.push(x)) =~= selects_view(s).push((x.name@, x.index)));
}

pub open spec fn selects_view(v: Seq<SelectInterface>) -> Seq<(Seq<char>, u32)> {
    v.map_values(|s: SelectInterface| (s.name@, s.index))
}

/// The interface offered for `i`.
fn select_of(i: &InterfaceInfo) -> (r: SelectInterface)
    ensures
        (r.name@, r.index) == select_view(*i),
{
    let name = if i.description.unicode_len() == 0 {
        i.name.clone()
    } else {
        i.description.clone()
    };
    SelectInterface { name, index: i.index }
}

/// The interfaces offered for a scan among `raw_interfaces`: those whose
/// description names no Bluetooth device, the likely defaults first, each
/// group in list order.
pub fn get_interfaces(raw_interfaces: &Vec<InterfaceInfo>) -> (r: Vec<SelectInterface>)
    ensures
        selects_view(r@) == offers(raw_interfaces@),
{
    let ghost raw = raw_interfaces@;
    let mut defaults: Vec<SelectInterface> = Vec::new();
    let mut others: Vec<SelectInterface> = Vec::new();
    let mut i: usize = 0;
    while i < raw_interfaces.len()
        invariant
            i <= raw.len(),
            raw == raw_interfaces@,
            selects_view(defaults@) == select_views(default_ifaces(raw.subrange(0, i as int))),
            selects_view(others@) == select_views(other_ifaces(raw.subrange(0, i as int))),
        decreases raw.len() - i,
    {
        let iface = &raw_interfaces[i];
        let lowered = lowercase(iface.description.as_str());
        let keep = !mentions_bluetooth(lowered.as_str());
        let default = is_default_interface(iface);
        let ghost before_d = defaults@;
        let ghost before_o = others@;
        proof {
            let prefix = raw.subrange(0, i as int);
            assert(raw.subrange(0, i + 1) =~= prefix.push(raw[i as int]));
            lemma_groups_push(prefix, raw[i as int]);
            lemma_select_views_push(default_ifaces(prefix), raw[i as int]);
            lemma_select_views_push(other_ifaces(prefix), raw[i as int]);
        }
        if keep && default {
            let sel = select_of(iface);
            proof {
                lemma_selects_view_push(defaults@, sel);
            }
            defaults.push(sel);
        } else if keep {
            let sel = select_of(iface);
            proof {
                lemma_selects_view_push(others@, sel);
            }
            others.push(sel);
        }
        i = i + 1;
    }
    let ghost d = defaults@;
    let ghost o = others@;
    defaults.append(&mut others);
    proof {
        assert(raw.subrange(0, raw.len() as int) =~= raw);
        assert(selects_view(d + o) =~= selects_view(d) + selects_view(o));
        assert(select_views(default_ifaces(raw) + other_ifaces(raw)) =~= select_views(default_ifaces(raw))
            + select_views(other_ifaces(raw)));
    }
    defaults
}

} // verus!
