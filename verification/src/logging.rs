//! What the request log reads out of a request.

use vstd::prelude::*;
use vstd::string::*;
use crate::text::{before_first, same_text, take_before, trim_text, trimmed};

verus! {

/// The address that a forwarding header names first.
pub open spec fn address_in(value: Seq<char>) -> Seq<char> {
    trimmed(before_first(value, ','))
}

/// Whether an address says who the client is.
pub open spec fn names_client(address: Seq<char>) -> bool {
    address.len() > 0 && address != "unknown"@
}

/// The client's address according to the forwarding headers, whose
/// values are `values` in the order of their rank, `None` for a header
/// that the request lacks: the first address that says who the client
/// is, and `unknown` if none does.
pub open spec fn client_ip_of(values: Seq<Option<String>>) -> Seq<char>
    decreases values.len(),
{
    if values.len() == 0 {
        "unknown"@
    } else {
        match values[0] {
            Some(value) => if names_client(address_in(value@)) {
                address_in(value@)
            } else {
                client_ip_of(values.drop_first())
            },
            None => client_ip_of(values.drop_first()),
        }
    }
}

/// The headers that may name the client, in the order of their rank.
pub fn ip_headers() -> (names: Vec<String>)
    ensures
        names@.len() == 5,
        names@[0]@ == "x-forwarded-for"@,
        names@[1]@ == "x-real-ip"@,
        names@[2]@ == "cf-connecting-ip"@,
        names@[3]@ == "x-client-ip"@,
        names@[4]@ == "x-forwarded"@,
{
    let mut names: Vec<String> = Vec::new();
    names.push(String::from_str("x-forwarded-for"));
    names.push(String::from_str("x-real-ip"));
    names.push(String::from_str("cf-connecting-ip"));
    names.push(String::from_str("x-client-ip"));
    names.push(String::from_str("x-forwarded"));
    names
}

/// The address that a forwarding header names first.
pub fn first_address(value: &str) -> (address: String)
    ensures
        address@ == address_in(value@),
{
    let first = take_before(value, ',');
    trim_text(first.as_str())
}

/// The client's address according to the forwarding headers.
pub fn get_client_ip(values: &Vec<Option<String>>) -> (ip: String)
    ensures
        ip@ == client_ip_of(values@),
{
    let n = values.len();
    let mut i: usize = 0;
    proof {
        assert(values@.skip(0) =~= values@);
    }
    while i < n
        invariant
            n == values@.len(),
            i <= n,
            client_ip_of(values@) == client_ip_of(values@.skip(i as int)),
        decreases n - i,
    {
        proof {
            assert(values@.skip(i as int).drop_first() =~= values@.skip(i as int + 1));
        }
        match &values[i] {
            Some(value) => {
                let address = first_address(value.as_str());
                if address.as_str().unicode_len() > 0 && !same_text(address.as_str(), "unknown") {
                    return address;
                }
            },
            None => {},
        }
        i = i + 1;
    }
    String::from_str("unknown")
}

} // verus!
