//! Generic utility functions: building a number from decimal text and
//! drawing a bounded uniform random number.

use vstd::prelude::*;

use num_bigint::BigUint;
use num_bigint::RandBigInt;

verus! {

use crate::bigint::bval;

/// An ASCII decimal digit.
pub open spec fn is_dec_digit(c: u8) -> bool {
    0x30 <= c <= 0x39
}

/// The value of a string of decimal digits, most significant first.
pub open spec fn dec_val(s: Seq<u8>) -> nat
    decreases s.len(),
{
    if s.len() == 0 {
        0
    } else {
        dec_val(s.drop_last()) * 10 + (s.last() - 0x30) as nat
    }
}

/// Create a `BigUint` number from a string (interpreted in base 10).
///
/// Relies on `BigUint::parse_bytes` with radix 10: on a nonempty slice of
/// ASCII decimal digits it returns the base-10 value, so with the
/// precondition the parse cannot fail.
#[verifier::external_body]
pub fn bignum(s: &[u8]) -> (r: BigUint)
    requires
        s@.len() > 0,
        forall|i: int| 0 <= i < s@.len() ==> is_dec_digit(#[trigger] s@[i]),
    ensures
        bval(r) == dec_val(s@),
{
    BigUint::parse_bytes(s, 10).expect("Not a number")
}

/// Generate a random `BigUint` between `lower` (inclusive) and `upper`
/// (exclusive).
///
/// Relies on `rand::thread_rng` and `num_bigint::RandBigInt::gen_biguint_range`:
/// a fresh, uniform, cryptographically secure draw in `[lower, upper)` on
/// every call, panicking when `lower >= upper`; the precondition rules that
/// out. One draw says nothing about the next, so only the bounds are stated.
#[verifier::external_body]
pub fn random_bignum(lower: &BigUint, upper: &BigUint) -> (r: BigUint)
    requires
        bval(*lower) < bval(*upper),
    ensures
        bval(*lower) <= bval(r) < bval(*upper),
{
    let mut rng = rand::thread_rng();

    // Note: upper bound is not inclusive
    rng.gen_biguint_range(lower, upper)
}

} // verus!
