//! Implementation of the DSA algorithm

use vstd::prelude::*;

use num_bigint::BigUint;

verus! {

use crate::arith::{
    lemma_mod_add, lemma_mod_mul, lemma_mod_range, lemma_mod_small, lemma_modexp_exponent_mod,
    lemma_modexp_multiplies, lemma_modexp_product, modexp,
};
use vstd::arithmetic::mul::lemma_mul_basics;
use crate::bigint::{
    big_add, big_eq, big_from_u64, big_modpow, big_mul, big_rem, big_sub, bval,
};
use crate::crypto::{digest_big, digest_of, Sign, Signature};
use crate::utils::random_bignum;

/// The DSA parameter bundle. The caller is responsible for algebraic
/// validity (`p` and `q` prime, `g` of order `q` modulo `p`,
/// `y = g ^ x mod p`); nothing here checks it, and invalid parameters give
/// mathematically meaningless but non-crashing output.
pub struct DSA {
    /// Public prime
    pub p: BigUint,
    /// Public group order
    pub q: BigUint,
    /// Public group generator
    pub g: BigUint,
    /// Public value `g ^ x mod p`
    pub y: BigUint,
    /// Secret exponent
    pub x: BigUint,
}

/// The first signature component: `r = (g ^ k mod p) mod q`.
pub open spec fn dsa_r(p: nat, q: nat, g: nat, k: nat) -> nat
    recommends
        p > 0,
        q > 0,
{
    modexp(g, k, p) % q
}

/// The second signature component:
/// `s = k^-1 * (h + x * r) mod q`, with `k^-1 = k ^ (q - 2) mod q` by
/// Fermat's little theorem against the prime subgroup order `q`.
pub open spec fn dsa_s(p: nat, q: nat, g: nat, x: nat, h: nat, k: nat) -> nat
    recommends
        p > 0,
        q > 1,
{
    (modexp(k, (q - 2) as nat, q) * (h + x * dsa_r(p, q, g, k))) % q
}

/// The value verification compares against `r`: with
/// `s^-1 = s ^ (q - 2) mod q`, `u1 = h * s^-1 mod q` and
/// `u2 = r * s^-1 mod q`, it is `(g ^ u1 * y ^ u2 mod p) mod q`.
pub open spec fn dsa_verify_val(p: nat, q: nat, g: nat, y: nat, h: nat, r: nat, s: nat) -> nat
    recommends
        p > 0,
        q > 1,
{
    let sinv = modexp(s, (q - 2) as nat, q);
    let u1 = (h * sinv) % q;
    let u2 = (r * sinv) % q;
    ((modexp(g, u1, p) * modexp(y, u2, p)) % p) % q
}

/// Use the DSA algorithm to sign messages and verify signatures
impl Sign for DSA {
    /// The random draw needs a nonempty range `[1, q)`.
    open spec fn sign_req(&self) -> bool {
        bval(self.q) > 1 && bval(self.p) > 0
    }

    /// The signature is the pair `(r, s)` for some ephemeral `k` in
    /// `[1, q)`; which `k` was drawn is not stated.
    open spec fn sign_ens(&self, m: BigUint, sig: Signature) -> bool {
        sig matches Signature::Pair(r, s) && exists|k: nat|
            1 <= k < bval(self.q) && bval(r) == dsa_r(
                bval(self.p),
                bval(self.q),
                bval(self.g),
                k,
            ) && bval(s) == dsa_s(
                bval(self.p),
                bval(self.q),
                bval(self.g),
                bval(self.x),
                digest_of(bval(m)),
                k,
            )
    }

    open spec fn verify_req(&self, sig: Signature) -> bool {
        bval(self.q) > 1 && bval(self.p) > 0 && sig is Pair
    }

    open spec fn verify_ens(&self, m: BigUint, sig: Signature, ok: bool) -> bool {
        sig matches Signature::Pair(r, s) ==> ok == (dsa_verify_val(
            bval(self.p),
            bval(self.q),
            bval(self.g),
            bval(self.y),
            digest_of(bval(m)),
            bval(r),
            bval(s),
        ) == bval(r))
    }

    /// Convert `m` to decimal text, compute its SHA-256 hash, and read the
    /// hash as an integer.
    fn hash(m: &BigUint) -> (h: BigUint) {
        digest_big(m)
    }

    /// Produce the signature `(r, s)` with `r = (g ^ k mod p) mod q` and
    /// `s = k^-1 * (hash(m) + x * r) mod q`, where `0 < k < q` is freshly
    /// drawn.
    fn sign(&self, m: &BigUint) -> (sig: Signature) {
        // Generate a random k between 1 and q-1
        let one = big_from_u64(1);
        let k = random_bignum(&one, &self.q);
        // By Fermat's little theorem, k^-1 mod q == k^(q-2) mod q
        let two = big_from_u64(2);
        let qm2 = big_sub(&self.q, &two);
        let k_inv = big_modpow(&k, &qm2, &self.q);

        let gk = big_modpow(&self.g, &k, &self.p);
        let r = big_rem(&gk, &self.q);
        let h = Self::hash(m);
        let xr = big_mul(&self.x, &r);
        let hxr = big_add(&h, &xr);
        let t = big_mul(&k_inv, &hxr);
        let s = big_rem(&t, &self.q);

        let sig = Signature::Pair(r, s);
        proof {
            let kk = bval(k);
            assert(1 <= kk < bval(self.q) && bval(r) == dsa_r(
                bval(self.p),
                bval(self.q),
                bval(self.g),
                kk,
            ) && bval(s) == dsa_s(
                bval(self.p),
                bval(self.q),
                bval(self.g),
                bval(self.x),
                digest_of(bval(*m)),
                kk,
            ));
        }
        sig
    }

    /// From the signature `(r, s)` compute `u1 = hash(m) * s^-1 mod q` and
    /// `u2 = r * s^-1 mod q`, then `v = (g ^ u1 * y ^ u2 mod p) mod q`, and
    /// accept exactly when `v == r`. A single-valued signature is a
    /// programming error and is excluded by the precondition.
    fn verify(&self, m: &BigUint, sig: &Signature) -> (ok: bool) {
        match sig {
            Signature::Pair(r, s) => {
                let two = big_from_u64(2);
                let qm2 = big_sub(&self.q, &two);
                let s_inv = big_modpow(s, &qm2, &self.q);
                let h = Self::hash(m);
                let hs = big_mul(&h, &s_inv);
                let u1 = big_rem(&hs, &self.q);
                let rs = big_mul(r, &s_inv);
                let u2 = big_rem(&rs, &self.q);

                let ga = big_modpow(&self.g, &u1, &self.p);
                let yb = big_modpow(&self.y, &u2, &self.p);
                let gy = big_mul(&ga, &yb);
                let vp = big_rem(&gy, &self.p);
                let v = big_rem(&vp, &self.q);

                big_eq(&v, r)
            },
            _ => {
                proof {
                    assert(false);
                }
                false
            },
        }
    }
}

/// DSA sign/verify: a signature of a digest `h`, made with any ephemeral
/// `k` that signing can draw, verifies against `h`, for a valid parameter
/// set. For such a set — `p` and `q` prime, `g` of order `q` modulo `p` —
/// Fermat's little theorem gives `g ^ q mod p == 1` and makes
/// `a ^ (q - 2) mod q` the inverse of every `a` in `[1, q)`; those
/// consequences of validity are the hypotheses taken here. A draw whose
/// second component `s` comes out zero yields no verifiable signature
/// (signing does not redraw in that rare case) and is excluded.
pub proof fn lemma_dsa_sign_verify(p: nat, q: nat, g: nat, y: nat, x: nat, h: nat, k: nat)
    requires
        p > 1,
        q > 1,
        y == modexp(g, x, p),
        modexp(g, q, p) == 1,
        forall|a: nat| 1 <= a < q ==> (#[trigger] modexp(a, (q - 2) as nat, q) * a) % q == 1,
        1 <= k < q,
        dsa_s(p, q, g, x, h, k) != 0,
    ensures
        dsa_verify_val(p, q, g, y, h, dsa_r(p, q, g, k), dsa_s(p, q, g, x, h, k)) == dsa_r(
            p,
            q,
            g,
            k,
        ),
{
    let qm2 = (q - 2) as nat;
    let r = dsa_r(p, q, g, k);
    let kinv = modexp(k, qm2, q);
    let biga = h + x * r;
    let s = dsa_s(p, q, g, x, h, k);
    let sinv = modexp(s, qm2, q);
    let u1 = (h * sinv) % q;
    let u2 = (r * sinv) % q;

    // k and s are invertible modulo q.
    assert((kinv * k) % q == 1);
    lemma_mod_range(kinv * biga, q);
    assert(1 <= s < q);
    assert((sinv * s) % q == 1);

    // s * k recovers the signed quantity h + x * r modulo q.
    lemma_mod_mul(kinv * biga, k, q);
    assert((s * k) % q == ((kinv * biga) * k) % q);
    assert((kinv * biga) * k == (kinv * k) * biga) by (nonlinear_arith);
    lemma_mod_mul(kinv * k, biga, q);
    lemma_mul_basics(biga as int);
    assert((s * k) % q == biga % q);

    // Multiplying by the inverse of s then recovers k.
    lemma_mod_mul(biga, sinv, q);
    lemma_mod_mul(s * k, sinv, q);
    assert((biga * sinv) % q == ((s * k) * sinv) % q);
    assert((s * k) * sinv == (sinv * s) * k) by (nonlinear_arith);
    lemma_mod_mul(sinv * s, k, q);
    lemma_mul_basics(k as int);
    lemma_mod_small(k, q);
    assert((biga * sinv) % q == k);

    // The exponent u1 + x * u2 is k modulo q.
    lemma_mod_add(u1, x * u2, q);
    lemma_mod_range(h * sinv, q);
    lemma_mod_small(u1, q);
    lemma_mod_mul(x, r * sinv, q);
    lemma_mod_add(h * sinv, x * (r * sinv), q);
    assert(h * sinv + x * (r * sinv) == biga * sinv) by (nonlinear_arith)
        requires
            biga == h + x * r,
    ;
    assert((u1 + x * u2) % q == k);

    // Modulo p, the verification value reconstructs g ^ k mod p.
    lemma_modexp_multiplies(g, x, u2, p);
    assert(modexp(y, u2, p) == modexp(g, x * u2, p));
    lemma_modexp_product(g, u1, x * u2, p);
    assert((modexp(g, u1, p) * modexp(y, u2, p)) % p == modexp(g, u1 + x * u2, p));
    lemma_modexp_exponent_mod(g, u1 + x * u2, q, p);
    assert(modexp(g, u1 + x * u2, p) == modexp(g, k, p));
    assert(dsa_verify_val(p, q, g, y, h, r, s) == modexp(g, k, p) % q);
}

/// The signature law restated over the operations' contracts: whatever
/// signature `sign` can return for `m` — for every ephemeral `k` it may
/// have drawn whose second component came out nonzero — `verify` accepts it
/// for `m`, under the same validity hypotheses as [`lemma_dsa_sign_verify`].
pub proof fn lemma_dsa_sign_verify_ops(dsa: DSA, m: BigUint, sig: Signature, ok: bool)
    requires
        bval(dsa.p) > 1,
        bval(dsa.q) > 1,
        bval(dsa.y) == modexp(bval(dsa.g), bval(dsa.x), bval(dsa.p)),
        modexp(bval(dsa.g), bval(dsa.q), bval(dsa.p)) == 1,
        forall|a: nat|
            1 <= a < bval(dsa.q) ==> (#[trigger] modexp(a, (bval(dsa.q) - 2) as nat, bval(dsa.q))
                * a) % bval(dsa.q) == 1,
        dsa.sign_ens(m, sig),
        bval(sig->Pair_1) != 0,
        dsa.verify_ens(m, sig, ok),
    ensures
        ok,
{
    let p = bval(dsa.p);
    let q = bval(dsa.q);
    let g = bval(dsa.g);
    let x = bval(dsa.x);
    let h = digest_of(bval(m));
    let k = choose|k: nat|
        1 <= k < q && bval(sig->Pair_0) == dsa_r(p, q, g, k) && bval(sig->Pair_1) == dsa_s(
            p,
            q,
            g,
            x,
            h,
            k,
        );
    lemma_dsa_sign_verify(p, q, g, bval(dsa.y), x, h, k);
}

} // verus!
