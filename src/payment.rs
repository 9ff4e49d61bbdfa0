//! The note carried by each compounding payment.
use vstd::prelude::*;

verus! {

/// The character of the decimal digit `d`.
pub open spec fn digit_char(d: nat) -> char
    recommends
        d < 10,
{
    ((d + 48) as u32) as char
}

/// The decimal digits of `n`, most significant first, without leading zeros.
pub open spec fn decimal_of(n: nat) -> Seq<char>
    decreases n,
{
    if n < 10 {
        seq![digit_char(n)]
    } else {
        decimal_of(n / 10) + seq![digit_char(n % 10)]
    }
}

/// Relies on `u64::to_string`: the `Display` form of an unsigned integer is
/// its decimal digits, with no sign, padding or leading zeros.
#[verifier::external_body]
fn decimal(n: u64) -> (r: String)
    ensures
        r@ == decimal_of(n as nat),
{
    n.to_string()
}

pub open spec fn payment_note_of(count: nat) -> Seq<char> {
    "This was an automated payment for compounding count:"@ + decimal_of(count)
}

/// The note of the payment made after `count` successful compounding cycles.
pub fn payment_note(count: u64) -> (r: String)
    ensures
        r@ == payment_note_of(count as nat),
{
    let mut note = String::from_str("This was an automated payment for compounding count:");
    let digits = decimal(count);
    note.append(digits.as_str());
    note
}

} // verus!
