//! The hostname resolver: reverse DNS for a discovered address.

use vstd::prelude::*;

use crate::addr::{ipv4_text, ipv4_to_string};
use crate::vendor::opt_text;

verus! {

/// The dns_lookup crate's error, carried as an opaque value.
#[verifier::external_type_specification]
#[verifier::external_body]
pub struct ExLookupError(dns_lookup::LookupError);

/// Relies on `dns_lookup::lookup_addr`: a reverse lookup of the address. Its
/// result depends on the resolver's configuration and on the network, so
/// nothing is stated of it.
#[verifier::external_body]
fn reverse_lookup(ipv4: u32) -> (r: Result<String, dns_lookup::LookupError>) {
    let octets: [u8; 4] = ipv4.to_be_bytes();
    dns_lookup::lookup_addr(&octets.into())
}

/// The hostname kept from a lookup of `ip`: no name when the lookup failed,
/// and none when it only echoed the address's own text.
pub open spec fn normalized_hostname(ip: u32, lookup: Option<Seq<char>>) -> Option<Seq<char>> {
    match lookup {
        Some(h) => if h == ipv4_text(ip) {
            None
        } else {
            Some(h)
        },
        None => None,
    }
}

/// The hostname to keep for `ipv4` from the result of its reverse lookup
/// (`None` where the lookup failed).
pub fn normalize_hostname(ipv4: u32, lookup: Option<String>) -> (r: Option<String>)
    ensures
        opt_text(r) == normalized_hostname(ipv4, opt_text(lookup)),
{
    match lookup {
        None => None,
        Some(hostname) => {
            let text = ipv4_to_string(ipv4);
            if hostname == text {
                None
            } else {
                Some(hostname)
            }
        },
    }
}

/// The name that a reverse lookup of `ipv4` gives, as it gives it; `None`
/// where the lookup fails.
pub fn lookup_hostname(ipv4: u32) -> (r: Option<String>) {
    match reverse_lookup(ipv4) {
        Ok(hostname) => Some(hostname),
        Err(_) => None,
    }
}

/// The hostname of `ipv4` by reverse DNS; `None` when the lookup fails or
/// gives back the address's own text.
pub fn find_hostname(ipv4: u32) -> (r: Option<String>)
    ensures
        r is Some ==> r->Some_0@ != ipv4_text(ipv4),
{
    normalize_hostname(ipv4, lookup_hostname(ipv4))
}

/// A failed lookup keeps no hostname, nor does a lookup that only gives
/// back the queried address's own text; any other name is kept as it is.
pub proof fn lemma_hostname_normalization(ip: u32, name: Seq<char>)
    ensures
        normalized_hostname(ip, None) is None,
        normalized_hostname(ip, Some(ipv4_text(ip))) is None,
        name != ipv4_text(ip) ==> normalized_hostname(ip, Some(name)) == Some(name),
{
}

} // verus!
