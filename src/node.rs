//! Where the ledger node is reached.
use vstd::prelude::*;

verus! {

/// The text with leading and trailing whitespace removed.
pub uninterp spec fn trimmed_of(s: Seq<char>) -> Seq<char>;

/// Relies on `str::trim`: the slice without leading and trailing whitespace,
/// which depends on the characters alone.
#[verifier::external_body]
fn trim(s: &str) -> (r: &str)
    ensures
        r@ == trimmed_of(s@),
{
    s.trim()
}

pub open spec fn algod_address_of(net_file: Seq<char>) -> Seq<char> {
    "http://"@ + trimmed_of(net_file)
}

/// The node's HTTP address, from the contents of the data directory's
/// `algod.net` file (a host and port).
pub fn algod_address(net_file: &str) -> (r: String)
    ensures
        r@ == algod_address_of(net_file@),
{
    let mut address = String::from_str("http://");
    address.append(trim(net_file));
    address
}

} // verus!
