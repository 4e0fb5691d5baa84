//! Implementation of the RSA algorithm

use vstd::prelude::*;

use num_bigint::BigUint;

verus! {

use vstd::arithmetic::power::pow;
use crate::arith::{lemma_modexp_compose, modexp};
use crate::bigint::{big_eq, big_modpow, bval};
use crate::crypto::{digest_big, digest_of, Ciphertext, Encrypt, Sign, Signature};

/// The RSA parameter bundle. The caller is responsible for algebraic
/// validity (`n = p * q` for distinct primes, `e * d = 1 mod phi(n)`);
/// nothing here checks it, and invalid parameters give mathematically
/// meaningless but non-crashing output.
pub struct RSA {
    /// Public modulus
    pub n: BigUint,
    /// Public exponent
    pub e: BigUint,
    /// Secret exponent
    pub d: BigUint,
}

/// Use the RSA algorithm to encrypt and decrypt messages
impl Encrypt for RSA {
    open spec fn encrypt_req(&self, m: BigUint) -> bool {
        bval(self.n) > 0
    }

    open spec fn encrypt_ens(&self, m: BigUint, c: Ciphertext) -> bool {
        c matches Ciphertext::Single(cv) && bval(cv) == modexp(
            bval(m),
            bval(self.e),
            bval(self.n),
        )
    }

    open spec fn decrypt_req(&self, c: Ciphertext) -> bool {
        bval(self.n) > 0 && c is Single
    }

    open spec fn decrypt_ens(&self, c: Ciphertext, m: BigUint) -> bool {
        c matches Ciphertext::Single(cv) ==> bval(m) == modexp(
            bval(cv),
            bval(self.d),
            bval(self.n),
        )
    }

    /// Compute `m ^ e mod n`
    fn encrypt(&self, m: &BigUint) -> (c: Ciphertext) {
        Ciphertext::Single(big_modpow(m, &self.e, &self.n))
    }

    /// Compute `c ^ d mod n`; a pair-shaped ciphertext is a programming
    /// error and is excluded by the precondition.
    fn decrypt(&self, c: &Ciphertext) -> (m: BigUint) {
        match c {
            Ciphertext::Single(cv) => big_modpow(cv, &self.d, &self.n),
            _ => {
                proof {
                    assert(false);
                }
                big_modpow(&self.d, &self.d, &self.n)
            },
        }
    }
}

/// Use the RSA algorithm to sign messages and verify signatures
impl Sign for RSA {
    open spec fn sign_req(&self) -> bool {
        bval(self.n) > 0
    }

    open spec fn sign_ens(&self, m: BigUint, sig: Signature) -> bool {
        sig matches Signature::Single(sv) && bval(sv) == modexp(
            digest_of(bval(m)),
            bval(self.d),
            bval(self.n),
        )
    }

    open spec fn verify_req(&self, sig: Signature) -> bool {
        bval(self.n) > 0 && sig is Single
    }

    open spec fn verify_ens(&self, m: BigUint, sig: Signature, ok: bool) -> bool {
        sig matches Signature::Single(sv) ==> ok == (modexp(bval(sv), bval(self.e), bval(self.n))
            == digest_of(bval(m)))
    }

    /// Convert `m` to decimal text, compute its SHA-256 hash, and read the
    /// hash as an integer.
    fn hash(m: &BigUint) -> (h: BigUint) {
        digest_big(m)
    }

    /// Produce the signature `hash(m) ^ d mod n`
    fn sign(&self, m: &BigUint) -> (sig: Signature) {
        Signature::Single(big_modpow(&Self::hash(m), &self.d, &self.n))
    }

    /// Compute `s ^ e mod n` and compare to `hash(m)`; a pair-shaped
    /// signature is a programming error and is excluded by the
    /// precondition.
    fn verify(&self, m: &BigUint, sig: &Signature) -> (ok: bool) {
        match sig {
            Signature::Single(s) => big_eq(&big_modpow(s, &self.e, &self.n), &Self::hash(m)),
            _ => {
                proof {
                    assert(false);
                }
                false
            },
        }
    }
}

/// RSA round trip: decryption inverts encryption on every message below the
/// modulus, for a valid key pair. For such a pair — `n` a product of two
/// distinct primes and `e * d = 1 mod phi(n)` — Euler's theorem gives
/// `m ^ (e * d) = m mod n` for every `m` below `n`; that consequence of
/// validity is the hypothesis taken here.
pub proof fn lemma_rsa_round_trip(n: nat, e: nat, d: nat, m: nat)
    requires
        n > 0,
        pow(m as int, e * d) % (n as int) == m,
    ensures
        modexp(modexp(m, e, n), d, n) == m,
{
    lemma_modexp_compose(n, e, d, m);
}

/// RSA signatures: a signature of `m` verifies against `m`, and against no
/// message whose digest differs from that of `m` — tampering is caught
/// except on a digest collision. The validity hypothesis is as in the
/// round-trip law, applied to the digest, which must lie below the modulus.
pub proof fn lemma_rsa_sign_verify(n: nat, e: nat, d: nat, m: nat, m2: nat)
    requires
        n > 0,
        pow(digest_of(m) as int, d * e) % (n as int) == digest_of(m),
        digest_of(m2) != digest_of(m),
    ensures
        modexp(modexp(digest_of(m), d, n), e, n) == digest_of(m),
        modexp(modexp(digest_of(m), d, n), e, n) != digest_of(m2),
{
    lemma_modexp_compose(n, d, e, digest_of(m));
}

/// The round-trip law restated over the operations' contracts: whatever
/// ciphertext `encrypt` can return for `m`, `decrypt` maps it back to `m`,
/// under the same validity hypothesis as [`lemma_rsa_round_trip`].
pub proof fn lemma_rsa_round_trip_ops(rsa: RSA, m: BigUint, c: Ciphertext, m2: BigUint)
    requires
        bval(rsa.n) > 0,
        pow(bval(m) as int, bval(rsa.e) * bval(rsa.d)) % (bval(rsa.n) as int) == bval(m),
        rsa.encrypt_ens(m, c),
        rsa.decrypt_ens(c, m2),
    ensures
        bval(m2) == bval(m),
{
    lemma_rsa_round_trip(bval(rsa.n), bval(rsa.e), bval(rsa.d), bval(m));
}

/// The signature law restated over the operations' contracts: whatever
/// signature `sign` returns for `m`, `verify` accepts it for `m` and
/// rejects it for every message whose digest differs, under the same
/// validity hypothesis as [`lemma_rsa_sign_verify`].
pub proof fn lemma_rsa_sign_verify_ops(
    rsa: RSA,
    m: BigUint,
    m2: BigUint,
    sig: Signature,
    ok: bool,
    ok2: bool,
)
    requires
        bval(rsa.n) > 0,
        pow(digest_of(bval(m)) as int, bval(rsa.d) * bval(rsa.e)) % (bval(rsa.n) as int)
            == digest_of(bval(m)),
        digest_of(bval(m2)) != digest_of(bval(m)),
        rsa.sign_ens(m, sig),
        rsa.verify_ens(m, sig, ok),
        rsa.verify_ens(m2, sig, ok2),
    ensures
        ok,
        !ok2,
{
    lemma_rsa_sign_verify(bval(rsa.n), bval(rsa.e), bval(rsa.d), bval(m), bval(m2));
}

} // verus!
