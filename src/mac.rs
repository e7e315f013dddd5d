//! MAC addresses and their text forms.

use vstd::prelude::*;

use crate::addr::digit_char;

verus! {

/// A MAC address: six octets, the first one sent first.
#[derive(Clone, Copy, Debug, PartialEq, Eq, Structural)]
pub struct MacAddress(pub u8, pub u8, pub u8, pub u8, pub u8, pub u8);

/// The octets of an address, in order.
pub open spec fn mac_octets(m: MacAddress) -> Seq<u8> {
    seq![m.0, m.1, m.2, m.3, m.4, m.5]
}

/// A hexadecimal digit in lower case.
pub open spec fn hex_lower(d: int) -> char {
    if d < 10 {
        digit_char(d)
    } else {
        ((87 + d) as u8) as char
    }
}

/// A hexadecimal digit in upper case.
pub open spec fn hex_upper(d: int) -> char {
    if d < 10 {
        digit_char(d)
    } else {
        ((55 + d) as u8) as char
    }
}

/// Two lower-case hexadecimal digits of an octet, zero-padded.
pub open spec fn octet_hex_lower(b: u8) -> Seq<char> {
    seq![hex_lower(b as int / 16), hex_lower(b as int % 16)]
}

/// Two upper-case hexadecimal digits of an octet, zero-padded.
pub open spec fn octet_hex_upper(b: u8) -> Seq<char> {
    seq![hex_upper(b as int / 16), hex_upper(b as int % 16)]
}

/// The usual text of an address: `00:11:22:33:44:55`.
pub open spec fn mac_text(m: MacAddress) -> Seq<char> {
    octet_hex_lower(m.0) + seq![':'] + octet_hex_lower(m.1) + seq![':'] + octet_hex_lower(m.2)
        + seq![':'] + octet_hex_lower(m.3) + seq![':'] + octet_hex_lower(m.4) + seq![':']
        + octet_hex_lower(m.5)
}

/// The organizationally unique identifier of an address: its first three
/// octets as six upper-case hexadecimal digits, as `002272`.
pub open spec fn oui_text(m: MacAddress) -> Seq<char> {
    octet_hex_upper(m.0) + octet_hex_upper(m.1) + octet_hex_upper(m.2)
}

/// Relies on the `Display` of pnet's `MacAddr`, which writes each octet as
/// `{:02x}` and joins them with `:`.
#[verifier::external_body]
fn format_mac(m: MacAddress) -> (r: String)
    ensures
        r@ == mac_text(m),
{
    pnet_datalink::MacAddr::new(m.0, m.1, m.2, m.3, m.4, m.5).to_string()
}

impl MacAddress {
    pub fn new(a: u8, b: u8, c: u8, d: u8, e: u8, f: u8) -> (r: MacAddress)
        ensures
            r == MacAddress(a, b, c, d, e, f),
    {
        MacAddress(a, b, c, d, e, f)
    }

    /// The broadcast address, every bit set.
    pub fn broadcast() -> (r: MacAddress)
        ensures
            r == MacAddress(0xff, 0xff, 0xff, 0xff, 0xff, 0xff),
    {
        MacAddress(0xff, 0xff, 0xff, 0xff, 0xff, 0xff)
    }

    /// The text of the address, as `00:11:22:33:44:55`.
    pub fn to_string(&self) -> (r: String)
        ensures
            r@ == mac_text(*self),
    {
        format_mac(*self)
    }

    /// The vendor prefix of the address, as `002272`.
    pub fn oui(&self) -> (r: String)
        ensures
            r@ == oui_text(*self),
    {
        let mut s = String::new();
        push_hex_upper(&mut s, self.0);
        push_hex_upper(&mut s, self.1);
        push_hex_upper(&mut s, self.2);
        assert(s@ =~= oui_text(*self));
        s
    }
}

/// The upper-case character of a hexadecimal digit.
fn hex_upper_char(d: u8) -> (c: char)
    requires
        d < 16,
    ensures
        c == hex_upper(d as int),
{
    if d < 10 {
        ((48 + d) as u8) as char
    } else {
        ((55 + d) as u8) as char
    }
}

/// Appends the two upper-case hexadecimal digits of an octet.
fn push_hex_upper(s: &mut String, b: u8)
    ensures
        final(s)@ == old(s)@ + octet_hex_upper(b),
{
    s.push(hex_upper_char(b / 16));
    s.push(hex_upper_char(b % 16));
    assert(s@ =~= old(s)@ + octet_hex_upper(b));
}

} // verus!
