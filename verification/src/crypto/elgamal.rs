//! Implementation of the ElGamal algorithm

use vstd::prelude::*;

use num_bigint::BigUint;

verus! {

use crate::arith::{
    lemma_mod_mul, lemma_mod_small, lemma_modexp_multiplies, lemma_modexp_product,
    lemma_modexp_unit, modexp,
};
use vstd::arithmetic::mul::{lemma_mul_basics, lemma_mul_is_associative};
use crate::bigint::{big_from_u64, big_modpow, big_mul, big_rem, big_sub, bval};
use crate::crypto::{Ciphertext, Encrypt};
use crate::utils::random_bignum;

/// The ElGamal parameter bundle. The caller is responsible for algebraic
/// validity (`p` prime, `g` a generator modulo `p`, `y = g ^ x mod p`);
/// nothing here checks it, and invalid parameters give mathematically
/// meaningless but non-crashing output.
pub struct ElGamal {
    /// Public prime
    pub p: BigUint,
    /// Public group generator
    pub g: BigUint,
    /// Public value `g ^ x mod p`
    pub y: BigUint,
    /// Secret exponent
    pub x: BigUint,
}

/// What decryption computes from a ciphertext pair: the inverse of the
/// shared secret by Fermat's little theorem, `c1 ^ (p - 1 - x) mod p`,
/// times `c2`, modulo `p`.
pub open spec fn elgamal_decrypt(p: nat, x: nat, c1: nat, c2: nat) -> nat
    recommends
        p > 0,
        x < p,
{
    (c2 * modexp(c1, (p - 1 - x) as nat, p)) % p
}

impl Encrypt for ElGamal {
    /// The random draw needs a nonempty range `[1, p - 1)`.
    open spec fn encrypt_req(&self, m: BigUint) -> bool {
        bval(self.p) > 2
    }

    /// The ciphertext is `(g ^ k mod p, m * (y ^ k mod p) mod p)` for some
    /// ephemeral `k` in `[1, p - 1)`; which `k` was drawn is not stated.
    open spec fn encrypt_ens(&self, m: BigUint, c: Ciphertext) -> bool {
        c matches Ciphertext::Pair(c1, c2) && exists|k: nat|
            1 <= k < bval(self.p) - 1 && bval(c1) == modexp(bval(self.g), k, bval(self.p)) && bval(
                c2,
            ) == (bval(m) * modexp(bval(self.y), k, bval(self.p))) % bval(self.p)
    }

    open spec fn decrypt_req(&self, c: Ciphertext) -> bool {
        bval(self.p) > 0 && bval(self.x) < bval(self.p) && c is Pair
    }

    open spec fn decrypt_ens(&self, c: Ciphertext, m: BigUint) -> bool {
        c matches Ciphertext::Pair(c1, c2) ==> bval(m) == elgamal_decrypt(
            bval(self.p),
            bval(self.x),
            bval(c1),
            bval(c2),
        )
    }

    /// Compute the ciphertext `(c1, c2)` with `c1 = g ^ k mod p` and
    /// `c2 = m * s mod p`, where `0 < k < p - 1` is freshly drawn and
    /// `s = y ^ k mod p` is the shared secret.
    fn encrypt(&self, m: &BigUint) -> (c: Ciphertext) {
        // Generate a random k between 1 and p-1
        let one = big_from_u64(1);
        let upper = big_sub(&self.p, &one);
        let k = random_bignum(&one, &upper);
        let s = big_modpow(&self.y, &k, &self.p);  // shared secret s

        let c1 = big_modpow(&self.g, &k, &self.p);
        let ms = big_mul(m, &s);
        let c2 = big_rem(&ms, &self.p);

        let c = Ciphertext::Pair(c1, c2);
        proof {
            let kk = bval(k);
            assert(1 <= kk < bval(self.p) - 1 && bval(c1) == modexp(
                bval(self.g),
                kk,
                bval(self.p),
            ) && bval(c2) == (bval(*m) * modexp(bval(self.y), kk, bval(self.p))) % bval(self.p));
        }
        c
    }

    /// From the ciphertext `(c1, c2)` compute the inverse of the shared
    /// secret, `s^-1 = c1 ^ (p - 1 - x) mod p` (Fermat's little theorem),
    /// and retrieve the original message `m = c2 * s^-1 mod p`. A
    /// single-valued ciphertext is a programming error and is excluded by
    /// the precondition.
    fn decrypt(&self, c: &Ciphertext) -> (m: BigUint) {
        match c {
            Ciphertext::Pair(c1, c2) => {
                // Compute the inverse of the shared secret s
                let one = big_from_u64(1);
                let pm1 = big_sub(&self.p, &one);
                let e2 = big_sub(&pm1, &self.x);
                let s_inv = big_modpow(c1, &e2, &self.p);
                let prod = big_mul(c2, &s_inv);
                big_rem(&prod, &self.p)
            },
            _ => {
                proof {
                    assert(false);
                }
                big_rem(&self.x, &self.p)
            },
        }
    }
}

/// ElGamal round trip: decryption inverts encryption on every message below
/// the prime, for a valid parameter set and every ephemeral `k` that
/// encryption can draw. For a valid set — `p` prime and `g` a unit modulo
/// `p` — Fermat's little theorem gives `g ^ (p - 1) mod p == 1`; that
/// consequence of validity is the hypothesis taken here.
pub proof fn lemma_elgamal_round_trip(p: nat, g: nat, x: nat, y: nat, m: nat, k: nat)
    requires
        p > 1,
        x < p,
        y == modexp(g, x, p),
        modexp(g, (p - 1) as nat, p) == 1,
        m < p,
        1 <= k < p - 1,
    ensures
        elgamal_decrypt(p, x, modexp(g, k, p), (m * modexp(y, k, p)) % p) == m,
{
    let e2 = (p - 1 - x) as nat;
    let c1 = modexp(g, k, p);
    let s = modexp(y, k, p);
    let c2 = (m * s) % p;
    let sinv = modexp(c1, e2, p);

    // The shared secret and its claimed inverse are both powers of g.
    lemma_modexp_multiplies(g, x, k, p);
    assert(s == modexp(g, x * k, p));
    lemma_modexp_multiplies(g, k, e2, p);
    assert(sinv == modexp(g, k * e2, p));

    // (c2 * sinv) % p == (m * (s * sinv)) % p
    lemma_mod_mul(m * s, sinv, p);
    assert((c2 * sinv) % p == ((m * s) * sinv) % p);
    lemma_mul_is_associative(m as int, s as int, sinv as int);
    assert(((m * s) * sinv) % p == (m * (s * sinv)) % p);
    lemma_mod_mul(m, s * sinv, p);

    // s * sinv is 1 modulo p, because the exponents sum to k * (p - 1).
    lemma_modexp_product(g, x * k, k * e2, p);
    assert((s * sinv) % p == modexp(g, x * k + k * e2, p));
    assert(x * k + k * e2 == k * ((p - 1) as nat)) by (nonlinear_arith)
        requires
            e2 == p - 1 - x,
            x < p,
    ;
    lemma_modexp_unit(g, (p - 1) as nat, k, p);
    assert((s * sinv) % p == 1);

    lemma_mod_small(m, p);
    assert((m * (s * sinv)) % p == (m * ((s * sinv) % p)) % p);
    assert(m * ((s * sinv) % p) == m * 1);
    lemma_mul_basics(m as int);
    assert((m * (s * sinv)) % p == m % p);
    assert((c2 * sinv) % p == m);
}

/// The round-trip law restated over the operations' contracts: whatever
/// ciphertext `encrypt` can return for `m` — for every ephemeral `k` it may
/// have drawn — `decrypt` maps it back to `m`, under the same validity
/// hypothesis as [`lemma_elgamal_round_trip`].
pub proof fn lemma_elgamal_round_trip_ops(eg: ElGamal, m: BigUint, c: Ciphertext, m2: BigUint)
    requires
        bval(eg.p) > 1,
        bval(eg.x) < bval(eg.p),
        bval(eg.y) == modexp(bval(eg.g), bval(eg.x), bval(eg.p)),
        modexp(bval(eg.g), (bval(eg.p) - 1) as nat, bval(eg.p)) == 1,
        bval(m) < bval(eg.p),
        eg.encrypt_ens(m, c),
        eg.decrypt_ens(c, m2),
    ensures
        bval(m2) == bval(m),
{
    let p = bval(eg.p);
    let g = bval(eg.g);
    let y = bval(eg.y);
    let k = choose|k: nat|
        1 <= k < p - 1 && bval(c->Pair_0) == modexp(g, k, p) && bval(c->Pair_1) == (bval(m)
            * modexp(y, k, p)) % p;
    lemma_elgamal_round_trip(p, g, bval(eg.x), y, bval(m), k);
}

} // verus!
