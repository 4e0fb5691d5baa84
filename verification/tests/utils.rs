use num_bigint::BigUint;

use crypto::crypto::dsa::DSA;
use crypto::crypto::rsa::RSA;
use crypto::crypto::Sign;
use crypto::utils::{bignum, random_bignum};

#[test]
fn test_bignum_decimal() {
    assert_eq!(bignum(b"0"), BigUint::from(0u32));
    assert_eq!(bignum(b"123"), BigUint::from(123u32));
    assert_eq!(
        bignum(b"340282366920938463463374607431768211456"),
        BigUint::from(1u32) << 128
    );
}

#[test]
fn test_random_bignum_bounds() {
    let lower = BigUint::from(1u32);
    let upper = BigUint::from(100u32);
    for _ in 0..50 {
        let r = random_bignum(&lower, &upper);
        assert!(lower <= r && r < upper);
    }
}

#[test]
fn test_hash_deterministic() {
    // The digest adapter is a pure function of the message and is shared
    // by the two signing algorithms.
    let m = bignum(b"314159265358979");
    assert_eq!(DSA::hash(&m), DSA::hash(&m));
    assert_eq!(RSA::hash(&m), DSA::hash(&m));

    // Hashing must not hand the message back unchanged.
    let two = bignum(b"2");
    assert_ne!(RSA::hash(&two), two);
}
