//! Modular exponentiation at the specification level, and the modular
//! arithmetic lemmas that the algorithm correctness laws rest on.

use vstd::prelude::*;

verus! {

use vstd::arithmetic::div_mod::{
    lemma_add_mod_noop, lemma_fundamental_div_mod, lemma_mod_bound, lemma_mul_mod_noop_general,
    lemma_small_mod,
};
use vstd::arithmetic::mul::{lemma_mul_is_associative, lemma_mul_is_commutative};
use vstd::arithmetic::power::{
    lemma1_pow, lemma_pow_adds, lemma_pow_mod_noop, lemma_pow_multiplies, pow,
};

/// `(b ^ e) % m`, the mathematical value that modular exponentiation
/// computes. Meaningful only for `m > 0`.
pub open spec fn modexp(b: nat, e: nat, m: nat) -> nat
    recommends
        m > 0,
{
    (pow(b as int, e) % (m as int)) as nat
}

/// A residue below the modulus is its own remainder.
pub proof fn lemma_mod_small(a: nat, m: nat)
    requires
        a < m,
        m > 0,
    ensures
        a % m == a,
{
    lemma_small_mod(a, m);
}

/// A remainder lies below the modulus.
pub proof fn lemma_mod_range(a: nat, m: nat)
    requires
        m > 0,
    ensures
        a % m < m,
{
    lemma_mod_bound(a as int, m as int);
}

/// Reducing either factor of a product modulo `m` leaves the product's
/// remainder unchanged.
pub proof fn lemma_mod_mul(a: nat, b: nat, m: nat)
    requires
        m > 0,
    ensures
        ((a % m) * b) % m == (a * b) % m,
        (a * (b % m)) % m == (a * b) % m,
{
    lemma_mul_mod_noop_general(a as int, b as int, m as int);
}

/// Reducing either summand modulo `m` leaves the sum's remainder unchanged.
pub proof fn lemma_mod_add(a: nat, b: nat, m: nat)
    requires
        m > 0,
    ensures
        ((a % m) + (b % m)) % m == (a + b) % m,
{
    lemma_add_mod_noop(a as int, b as int, m as int);
}

/// Nesting modular exponentiations multiplies the exponents:
/// `(v ^ a mod m) ^ b mod m == v ^ (a * b) mod m`.
pub proof fn lemma_modexp_multiplies(v: nat, a: nat, b: nat, m: nat)
    requires
        m > 0,
    ensures
        modexp(modexp(v, a, m), b, m) == modexp(v, a * b, m),
{
    let mi = m as int;
    let vi = v as int;
    assert(modexp(v, a, m) as int == pow(vi, a) % mi);
    lemma_pow_mod_noop(pow(vi, a), b, mi);
    lemma_pow_multiplies(vi, a, b);
}

/// When `v ^ (a * b) mod m` returns `v` itself, raising `v` to `a` and the
/// result to `b`, reducing modulo `m` each time, returns `v` as well.
pub proof fn lemma_modexp_compose(m: nat, a: nat, b: nat, v: nat)
    requires
        m > 0,
        pow(v as int, a * b) % (m as int) == v,
    ensures
        modexp(modexp(v, a, m), b, m) == v,
{
    lemma_modexp_multiplies(v, a, b, m);
}

/// Multiplying two modular powers of one base adds the exponents:
/// `(g ^ a mod m) * (g ^ b mod m) mod m == g ^ (a + b) mod m`.
pub proof fn lemma_modexp_product(g: nat, a: nat, b: nat, m: nat)
    requires
        m > 0,
    ensures
        (modexp(g, a, m) * modexp(g, b, m)) % m == modexp(g, a + b, m),
{
    let mi = m as int;
    let gi = g as int;
    lemma_mul_mod_noop_general(pow(gi, a), pow(gi, b), mi);
    lemma_pow_adds(gi, a, b);
}

/// A power of a unit is a unit: when `g ^ t mod m == 1`, every exponent
/// `k * t` gives `g ^ (k * t) mod m == 1`.
pub proof fn lemma_modexp_unit(g: nat, t: nat, k: nat, m: nat)
    requires
        m > 1,
        modexp(g, t, m) == 1,
    ensures
        modexp(g, k * t, m) == 1,
{
    lemma_modexp_multiplies(g, t, k, m);
    assert(modexp(g, t * k, m) == modexp(modexp(g, t, m), k, m));
    lemma1_pow(k);
    lemma_small_mod(1, m);
    assert(modexp(1, k, m) == 1);
    assert(modexp(g, t * k, m) == 1);
    lemma_mul_is_commutative(k as int, t as int);
}

/// With `g ^ q mod m == 1`, exponents of `g` only matter modulo `q`.
pub proof fn lemma_modexp_exponent_mod(g: nat, a: nat, q: nat, m: nat)
    requires
        m > 1,
        q > 0,
        modexp(g, q, m) == 1,
    ensures
        modexp(g, a, m) == modexp(g, a % q, m),
{
    let mi = m as int;
    let gi = g as int;
    let quot = a / q;
    lemma_fundamental_div_mod(a as int, q as int);
    lemma_mod_bound(a as int, q as int);
    assert(a == q * quot + a % q);
    lemma_pow_adds(gi, q * quot, a % q);
    assert(pow(gi, a) == pow(gi, q * quot) * pow(gi, a % q));
    lemma_modexp_unit(g, q, quot, m);
    assert(modexp(g, quot * q, m) == 1);
    assert(quot * q == q * quot);
    assert(pow(gi, q * quot) % mi == 1);
    lemma_mul_mod_noop_general(pow(gi, q * quot), pow(gi, a % q), mi);
    assert((pow(gi, q * quot) * pow(gi, a % q)) % mi == ((pow(gi, q * quot) % mi) * pow(
        gi,
        a % q,
    )) % mi);
    assert(modexp(g, a, m) as int == (1 * pow(gi, a % q)) % mi);
}

} // verus!
