//! Lazy enumeration of the addresses of a list of IPv4 ranges.

use vstd::prelude::*;

use crate::addr::{lemma_network_le_broadcast, mask_of, Ipv4Net};

verus! {

/// The addresses from `lo` to `hi`, both included, in ascending order.
pub open spec fn span(lo: u32, hi: u32) -> Seq<u32> {
    Seq::new((hi - lo + 1) as nat, |i: int| (lo + i) as u32)
}

/// The addresses of a range, network address first, broadcast address last.
pub open spec fn net_addrs(n: Ipv4Net) -> Seq<u32> {
    span(n.network_spec(), n.broadcast_spec())
}

/// The addresses of a list of ranges, range after range in list order.
pub open spec fn all_addrs(nets: Seq<Ipv4Net>) -> Seq<u32>
    decreases nets.len(),
{
    if nets.len() == 0 {
        Seq::empty()
    } else {
        net_addrs(nets[0]) + all_addrs(nets.drop_first())
    }
}

/// A low-memory iterator over the addresses of several ranges: it holds the
/// ranges still queued and a cursor into the range being walked.
pub struct NetworkIterator {
    current: Option<(u32, u32)>,
    networks: Vec<Ipv4Net>,
}

/// The addresses left under a cursor `(next, last)`.
pub open spec fn cursor_addrs(c: Option<(u32, u32)>) -> Seq<u32> {
    match c {
        Some((lo, hi)) => span(lo, hi),
        None => Seq::empty(),
    }
}

impl View for NetworkIterator {
    type V = Seq<u32>;

    /// The addresses that the iterator has still to produce, in order.
    closed spec fn view(&self) -> Seq<u32> {
        cursor_addrs(self.current) + all_addrs(self.networks@)
    }
}

impl NetworkIterator {
    /// The cursor never passes the end of its range.
    pub closed spec fn wf(&self) -> bool {
        match self.current {
            Some((lo, hi)) => lo <= hi,
            None => true,
        }
    }

    /// The number of addresses left in the range being walked.
    pub closed spec fn active_len(&self) -> nat {
        cursor_addrs(self.current).len()
    }

    /// The ranges still queued behind the one being walked.
    pub closed spec fn queued(&self) -> Seq<Ipv4Net> {
        self.networks@
    }

    /// An iterator over the addresses of `networks_ref`, taken in order:
    /// every range is queued and none is walked yet.
    pub fn new(networks_ref: &[Ipv4Net]) -> (r: NetworkIterator)
        ensures
            r.wf(),
            r@ == all_addrs(networks_ref@),
            r.queued() == networks_ref@,
            r.active_len() == 0,
    {
        let mut networks: Vec<Ipv4Net> = Vec::new();
        let mut i: usize = 0;
        while i < networks_ref.len()
            invariant
                i <= networks_ref@.len(),
                networks@ == networks_ref@.subrange(0, i as int),
            decreases networks_ref@.len() - i,
        {
            networks.push(networks_ref[i]);
            i = i + 1;
        }
        assert(networks@ =~= networks_ref@);
        let r = NetworkIterator { current: None, networks };
        assert(r@ =~= all_addrs(networks_ref@));
        r
    }

    /// Whether both the cursor and the queue are empty.
    fn has_no_items_left(&self) -> (r: bool)
        ensures
            r == (self.current is None && self.networks@.len() == 0),
    {
        self.current.is_none() && self.networks.len() == 0
    }

    /// Moves the first queued range under the cursor.
    fn select_new_iterator(&mut self)
        requires
            old(self).current is None,
            old(self).networks@.len() > 0,
        ensures
            final(self).wf(),
            final(self)@ == old(self)@,
            final(self).current is Some,
            final(self).networks@ == old(self).networks@.drop_first(),
            final(self).active_len() == net_addrs(old(self).networks@[0]).len(),
    {
        let net = self.networks.remove(0);
        proof {
            lemma_network_le_broadcast(net);
        }
        self.current = Some((net.network(), net.broadcast()));
        assert(old(self).networks@.drop_first() =~= self.networks@);
        assert(self@ =~= old(self)@);
    }

    /// Takes the address under the cursor and moves the cursor on.
    fn pop_next_iterator_address(&mut self) -> (r: u32)
        requires
            old(self).wf(),
            old(self).current is Some,
        ensures
            final(self).wf(),
            final(self).networks == old(self).networks,
            final(self).active_len() == old(self).active_len() - 1,
            r == old(self)@[0],
            final(self)@ == old(self)@.drop_first(),
    {
        let (lo, hi) = self.current.unwrap();
        if lo == hi {
            self.current = None;
        } else {
            self.current = Some((lo + 1, hi));
        }
        assert(self@ =~= old(self)@.drop_first());
        lo
    }

    /// The number of addresses left in the range being walked; the ranges
    /// still queued are not counted.
    pub fn len(&self) -> (r: u64)
        requires
            self.wf(),
        ensures
            r == self.active_len(),
    {
        match self.current {
            Some((lo, hi)) => (hi - lo) as u64 + 1,
            None => 0,
        }
    }

    /// The next address, or `None` once every range has been walked. The
    /// range being walked loses one address; where it is used up, the first
    /// queued range is taken out of the queue and its first address given.
    pub fn next(&mut self) -> (r: Option<u32>)
        requires
            old(self).wf(),
        ensures
            final(self).wf(),
            old(self).active_len() > 0 ==> final(self).active_len() == old(self).active_len() - 1
                && final(self).queued() == old(self).queued(),
            old(self).active_len() == 0 && old(self).queued().len() > 0 ==> final(self).active_len()
                == net_addrs(old(self).queued()[0]).len() - 1 && final(self).queued() == old(
                self,
            ).queued().drop_first(),
            old(self).active_len() == 0 && old(self).queued().len() == 0 ==> r is None
                && final(self).queued() == old(self).queued() && final(self).active_len() == 0,
            old(self)@.len() == 0 ==> r is None && final(self)@ == old(self)@,
            old(self)@.len() > 0 ==> r == Some(old(self)@[0]) && final(self)@ == old(self)@.drop_first(),
    {
        if self.has_no_items_left() {
            proof {
                lemma_all_addrs_empty(self.networks@);
            }
            return None;
        }
        if self.current.is_none() {
            self.select_new_iterator();
        }
        Some(self.pop_next_iterator_address())
    }
}

/// Each queued range holds at least one address, so the list holds none
/// exactly when it is empty.
proof fn lemma_all_addrs_empty(nets: Seq<Ipv4Net>)
    ensures
        (all_addrs(nets).len() == 0) == (nets.len() == 0),
{
    if nets.len() > 0 {
        lemma_network_le_broadcast(nets[0]);
    }
}

/// An empty list of ranges yields no address at all.
pub proof fn lemma_empty_list_yields_nothing()
    ensures
        all_addrs(Seq::<Ipv4Net>::empty()).len() == 0,
{
}

/// A `/32` range yields its one address, and a list of that range alone
/// yields that address and nothing more.
pub proof fn lemma_host_range_yields_its_address(n: Ipv4Net)
    requires
        n.prefix == 32,
    ensures
        net_addrs(n) == seq![n.addr],
        all_addrs(seq![n]) == seq![n.addr],
{
    let a = n.addr;
    assert(a & 0xffff_ffffu32 == a && (a | !0xffff_ffffu32) == a) by (bit_vector);
    assert(net_addrs(n) =~= seq![n.addr]);
    assert(seq![n].drop_first() =~= Seq::<Ipv4Net>::empty());
    reveal_with_fuel(all_addrs, 2);
    assert(all_addrs(seq![n]) =~= seq![n.addr]);
}

/// A `/24` range yields 256 addresses in ascending order, from its network
/// address to its broadcast address.
pub proof fn lemma_slash24_range(n: Ipv4Net)
    requires
        n.prefix == 24,
    ensures
        net_addrs(n).len() == 256,
        net_addrs(n)[0] == n.network_spec(),
        net_addrs(n)[255] == n.broadcast_spec(),
        forall|i: int| 0 <= i < 255 ==> #[trigger] net_addrs(n)[i] < net_addrs(n)[i + 1],
{
    let a = n.addr;
    assert(mask_of(24) == 0xffff_ff00u32) by (bit_vector);
    assert((a | !0xffff_ff00u32) - (a & 0xffff_ff00u32) == 255) by (bit_vector);
    assert((a | !0xffff_ff00u32) >= (a & 0xffff_ff00u32)) by (bit_vector);
}

/// Concatenating lists of ranges concatenates what they yield.
pub proof fn lemma_all_addrs_append(a: Seq<Ipv4Net>, b: Seq<Ipv4Net>)
    ensures
        all_addrs(a + b) == all_addrs(a) + all_addrs(b),
    decreases a.len(),
{
    if a.len() == 0 {
        assert(a + b =~= b);
        assert(all_addrs(a) + all_addrs(b) =~= all_addrs(b));
    } else {
        assert((a + b).drop_first() =~= a.drop_first() + b);
        lemma_all_addrs_append(a.drop_first(), b);
        assert(all_addrs(a + b) =~= all_addrs(a) + all_addrs(b));
    }
}

/// Over a list of ranges, every address of range `k` is yielded after all
/// the addresses of the ranges before it and before any address of the
/// ranges after it: each range is drained, in list order, before the next.
pub proof fn lemma_ranges_drained_in_order(nets: Seq<Ipv4Net>, k: int)
    requires
        0 <= k < nets.len(),
    ensures
        all_addrs(nets) == all_addrs(nets.take(k)) + net_addrs(nets[k]) + all_addrs(nets.skip(k + 1)),
{
    assert(nets =~= nets.take(k) + (seq![nets[k]] + nets.skip(k + 1)));
    lemma_all_addrs_append(nets.take(k), seq![nets[k]] + nets.skip(k + 1));
    lemma_all_addrs_append(seq![nets[k]], nets.skip(k + 1));
    assert(seq![nets[k]].drop_first() =~= Seq::<Ipv4Net>::empty());
    reveal_with_fuel(all_addrs, 2);
    assert(all_addrs(seq![nets[k]]) =~= net_addrs(nets[k]));
    assert(all_addrs(nets) =~= all_addrs(nets.take(k)) + net_addrs(nets[k]) + all_addrs(nets.skip(k + 1)));
}

} // verus!
