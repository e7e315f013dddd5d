//! IPv4 addresses as `u32` values (most significant octet first) and CIDR
//! ranges over them.

use vstd::prelude::*;

verus! {

/// The mask of a prefix length: the `prefix` most significant bits set.
/// A prefix of 32 or more masks every bit.
pub open spec fn mask_of(prefix: u8) -> u32 {
    if prefix >= 32 {
        0xffff_ffffu32
    } else {
        !(0xffff_ffffu32 >> prefix)
    }
}

/// The address built from four octets, the first one most significant.
pub open spec fn octets_value(a: u8, b: u8, c: u8, d: u8) -> u32 {
    (a as int * 0x100_0000 + b as int * 0x1_0000 + c as int * 0x100 + d as int) as u32
}

/// The character of a decimal digit.
pub open spec fn digit_char(d: int) -> char {
    ((48 + d) as u8) as char
}

/// The decimal text of a number, without leading zeros.
pub open spec fn decimal_text(n: nat) -> Seq<char>
    decreases n,
{
    if n < 10 {
        seq![digit_char(n as int)]
    } else {
        decimal_text(n / 10).push(digit_char((n % 10) as int))
    }
}

/// The dotted-decimal text of an address, as `192.168.1.1`.
pub open spec fn ipv4_text(ip: u32) -> Seq<char> {
    decimal_text((ip / 0x100_0000) as nat) + seq!['.'] + decimal_text(((ip / 0x1_0000) % 0x100) as nat)
        + seq!['.'] + decimal_text(((ip / 0x100) % 0x100) as nat) + seq!['.'] + decimal_text(
        (ip % 0x100) as nat,
    )
}

/// Relies on `String::push`: the character is appended at the end.
pub assume_specification[ String::push ](s: &mut String, ch: char)
    ensures
        final(s)@ == old(s)@.push(ch),
;

/// An IPv4 CIDR block: a base address and a prefix length.
#[derive(Clone, Copy, Debug, PartialEq, Eq, Structural)]
pub struct Ipv4Net {
    pub addr: u32,
    pub prefix: u8,
}

impl Ipv4Net {
    /// The lowest address of the block.
    pub open spec fn network_spec(self) -> u32 {
        self.addr & mask_of(self.prefix)
    }

    /// The highest address of the block.
    pub open spec fn broadcast_spec(self) -> u32 {
        self.addr | !mask_of(self.prefix)
    }

    /// A block from an address and a prefix length; `None` when the prefix
    /// is longer than 32 bits.
    pub fn new(addr: u32, prefix: u8) -> (r: Option<Ipv4Net>)
        ensures
            prefix <= 32 ==> r == Some(Ipv4Net { addr, prefix }),
            prefix > 32 ==> r is None,
    {
        if prefix > 32 {
            None
        } else {
            Some(Ipv4Net { addr, prefix })
        }
    }

    pub fn mask(&self) -> (r: u32)
        ensures
            r == mask_of(self.prefix),
    {
        if self.prefix >= 32 {
            0xffff_ffffu32
        } else {
            !(0xffff_ffffu32 >> self.prefix)
        }
    }

    pub fn network(&self) -> (r: u32)
        ensures
            r == self.network_spec(),
    {
        self.addr & self.mask()
    }

    pub fn broadcast(&self) -> (r: u32)
        ensures
            r == self.broadcast_spec(),
    {
        self.addr | !self.mask()
    }
}

/// The network address never exceeds the broadcast address.
pub proof fn lemma_network_le_broadcast(n: Ipv4Net)
    ensures
        n.network_spec() <= n.broadcast_spec(),
{
    let a = n.addr;
    let m = mask_of(n.prefix);
    assert((a & m) <= (a | !m)) by (bit_vector);
}

/// The address of four octets.
pub fn ipv4_from_octets(a: u8, b: u8, c: u8, d: u8) -> (r: u32)
    ensures
        r == octets_value(a, b, c, d),
{
    (a as u32) * 0x100_0000 + (b as u32) * 0x1_0000 + (c as u32) * 0x100 + (d as u32)
}

/// Appends the decimal text of an octet.
fn push_decimal(s: &mut String, n: u8)
    ensures
        final(s)@ == old(s)@ + decimal_text(n as nat),
{
    proof {
        reveal_with_fuel(decimal_text, 3);
    }
    if n >= 100 {
        s.push(((48 + n / 100) as u8) as char);
    }
    if n >= 10 {
        s.push(((48 + (n / 10) % 10) as u8) as char);
    }
    s.push(((48 + n % 10) as u8) as char);
    proof {
        let ghost m = n as nat;
        if n >= 100 {
            assert(decimal_text(m) == decimal_text(m / 100).push(digit_char(((m / 10) % 10) as int)).push(digit_char((m % 10) as int)));
        }
        assert(old(s)@ + decimal_text(m) =~= s@);
    }
}

/// The dotted-decimal text of an address.
pub fn ipv4_to_string(ip: u32) -> (r: String)
    ensures
        r@ == ipv4_text(ip),
{
    let mut s = String::new();
    push_decimal(&mut s, (ip / 0x100_0000) as u8);
    s.push('.');
    push_decimal(&mut s, ((ip / 0x1_0000) % 0x100) as u8);
    s.push('.');
    push_decimal(&mut s, ((ip / 0x100) % 0x100) as u8);
    s.push('.');
    push_decimal(&mut s, (ip % 0x100) as u8);
    assert(s@ =~= ipv4_text(ip));
    s
}

} // verus!
