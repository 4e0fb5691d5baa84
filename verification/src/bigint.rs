//! The trusted boundary around `num_bigint::BigUint`: the type declaration,
//! the spec-level value of a `BigUint`, and thin wrappers around the exact
//! integer operations the algorithms use.

use vstd::prelude::*;

use num_bigint::BigUint;

verus! {

use crate::arith::modexp;

/// `num_bigint::BigUint` is an exact, unbounded, non-negative integer;
/// declaring it lets its values stand in verified signatures and fields.
#[verifier::external_type_specification]
#[verifier::external_body]
pub struct ExBigUint(BigUint);

/// The numeric value a `BigUint` holds. Every wrapper below states its
/// effect in terms of this value.
pub uninterp spec fn bval(b: BigUint) -> nat;

/// Relies on `BigUint: From<u64>`: the result holds the given value.
#[verifier::external_body]
pub(crate) fn big_from_u64(v: u64) -> (r: BigUint)
    ensures
        bval(r) == v as nat,
{
    BigUint::from(v)
}

/// Relies on `Add for &BigUint`: exact unbounded addition.
#[verifier::external_body]
pub(crate) fn big_add(a: &BigUint, b: &BigUint) -> (r: BigUint)
    ensures
        bval(r) == bval(*a) + bval(*b),
{
    a + b
}

/// Relies on `Sub for &BigUint`: exact subtraction, which panics when the
/// subtrahend is larger; the precondition rules that out.
#[verifier::external_body]
pub(crate) fn big_sub(a: &BigUint, b: &BigUint) -> (r: BigUint)
    requires
        bval(*b) <= bval(*a),
    ensures
        bval(r) == bval(*a) - bval(*b),
{
    a - b
}

/// Relies on `Mul for &BigUint`: exact unbounded multiplication.
#[verifier::external_body]
pub(crate) fn big_mul(a: &BigUint, b: &BigUint) -> (r: BigUint)
    ensures
        bval(r) == bval(*a) * bval(*b),
{
    a * b
}

/// Relies on `Rem for &BigUint`: the remainder of exact division, which
/// panics on a zero divisor; the precondition rules that out.
#[verifier::external_body]
pub(crate) fn big_rem(a: &BigUint, m: &BigUint) -> (r: BigUint)
    requires
        bval(*m) > 0,
    ensures
        bval(r) == bval(*a) % bval(*m),
{
    a % m
}

/// Relies on `BigUint::modpow`: returns `(self ^ exponent) % modulus` and
/// panics when the modulus is zero; the precondition rules that out.
#[verifier::external_body]
pub(crate) fn big_modpow(b: &BigUint, e: &BigUint, m: &BigUint) -> (r: BigUint)
    requires
        bval(*m) > 0,
    ensures
        bval(r) == modexp(bval(*b), bval(*e), bval(*m)),
{
    b.modpow(e, m)
}

/// Relies on `PartialEq for BigUint`: equality of the numeric values.
#[verifier::external_body]
pub(crate) fn big_eq(a: &BigUint, b: &BigUint) -> (r: bool)
    ensures
        r == (bval(*a) == bval(*b)),
{
    a == b
}

} // verus!
