//! Collection of encryption and digital signature algorithms: the tagged
//! result types, the capability traits, and the shared digest adapter that
//! maps a message integer to a fixed-size digest integer.

use vstd::prelude::*;

use num_bigint::BigUint;

pub mod dsa;
pub mod elgamal;
pub mod rsa;

verus! {

use crate::bigint::bval;

/// Single number or a pair of numbers (depending on the algorithm)
#[derive(Debug)]
pub enum Ciphertext {
    Single(BigUint),
    Pair(BigUint, BigUint),
}

/// Single number or a pair of numbers (depending on the algorithm)
#[derive(Debug)]
pub enum Signature {
    Single(BigUint),
    Pair(BigUint, BigUint),
}

/// The decimal digit character for a value below ten.
pub open spec fn dec_digit_char(d: nat) -> char
    recommends
        d < 10,
{
    if d == 0 {
        '0'
    } else if d == 1 {
        '1'
    } else if d == 2 {
        '2'
    } else if d == 3 {
        '3'
    } else if d == 4 {
        '4'
    } else if d == 5 {
        '5'
    } else if d == 6 {
        '6'
    } else if d == 7 {
        '7'
    } else if d == 8 {
        '8'
    } else {
        '9'
    }
}

/// The canonical decimal rendering of a number: no sign, no leading zeros,
/// a single `'0'` for zero.
pub open spec fn dec_str(n: nat) -> Seq<char>
    decreases n,
{
    if n < 10 {
        seq![dec_digit_char(n)]
    } else {
        dec_str(n / 10).push(dec_digit_char(n % 10))
    }
}

/// An ASCII lowercase hexadecimal digit.
pub open spec fn is_hex_digit(c: char) -> bool {
    (0x30 <= c as u32 <= 0x39) || (0x61 <= c as u32 <= 0x66)
}

/// The value of one lowercase hexadecimal digit.
pub open spec fn hex_digit_val(c: char) -> nat
    recommends
        is_hex_digit(c),
{
    if 0x30 <= c as u32 <= 0x39 {
        (c as u32 - 0x30) as nat
    } else {
        (c as u32 - 0x61 + 10) as nat
    }
}

/// The value of a string of hexadecimal digits, most significant first.
pub open spec fn hex_val(s: Seq<char>) -> nat
    decreases s.len(),
{
    if s.len() == 0 {
        0
    } else {
        hex_val(s.drop_last()) * 16 + hex_digit_val(s.last())
    }
}

/// The SHA-256 digest of a text, rendered as lowercase hexadecimal text.
/// It depends on the input characters alone; what it is on given input is
/// left unstated, as only the external hash computes it.
pub uninterp spec fn sha256_hex(s: Seq<char>) -> Seq<char>;

/// The digest adapter as a whole: render the message in decimal, hash the
/// text, and read the hash's hexadecimal text as a base-16 integer.
pub open spec fn digest_of(m: nat) -> nat {
    hex_val(sha256_hex(dec_str(m)))
}

/// Relies on the `Display` impl of `num_bigint::BigUint` (through
/// `to_string`): canonical decimal text, no sign and no leading zeros.
#[verifier::external_body]
fn big_to_dec_string(b: &BigUint) -> (r: String)
    ensures
        r@ == dec_str(bval(*b)),
{
    b.to_string()
}

/// Relies on `sha256::digest`: the SHA-256 of the input text as 64
/// lowercase hexadecimal characters, a function of the input alone.
#[verifier::external_body]
fn sha_hex(s: &str) -> (r: String)
    ensures
        r@ == sha256_hex(s@),
        r@.len() == 64,
        forall|i: int| 0 <= i < r@.len() ==> is_hex_digit(#[trigger] r@[i]),
{
    sha256::digest(s)
}

/// Relies on `BigUint::parse_bytes` with radix 16: on a nonempty string of
/// lowercase hexadecimal digits it returns the base-16 value, so with the
/// precondition the parse cannot fail.
#[verifier::external_body]
fn big_from_hex(s: &str) -> (r: BigUint)
    requires
        s@.len() > 0,
        forall|i: int| 0 <= i < s@.len() ==> is_hex_digit(#[trigger] s@[i]),
    ensures
        bval(r) == hex_val(s@),
{
    BigUint::parse_bytes(s.as_bytes(), 16).expect("Cannot convert bytes to BigUint")
}

/// The digest adapter: convert the message to decimal text, compute its
/// SHA-256 hash, and read the hexadecimal hash text as an integer.
pub(crate) fn digest_big(m: &BigUint) -> (h: BigUint)
    ensures
        bval(h) == digest_of(bval(*m)),
{
    let text = big_to_dec_string(m);
    let hx = sha_hex(text.as_str());
    big_from_hex(hx.as_str())
}

/// Add encrypt/decrypt capabilities to the algorithm. Each implementor
/// states, through the associated spec functions, on which inputs its
/// operations are defined and exactly which values they return.
pub trait Encrypt: Sized {
    /// When encryption is defined.
    spec fn encrypt_req(&self, m: BigUint) -> bool;

    /// Exactly what ciphertext encryption returns.
    spec fn encrypt_ens(&self, m: BigUint, c: Ciphertext) -> bool;

    /// When decryption is defined, including the ciphertext shape the
    /// algorithm produces; the mismatched shape is a programming error and
    /// is excluded here.
    spec fn decrypt_req(&self, c: Ciphertext) -> bool;

    /// Exactly what message decryption returns.
    spec fn decrypt_ens(&self, c: Ciphertext, m: BigUint) -> bool;

    fn encrypt(&self, m: &BigUint) -> (c: Ciphertext)
        requires
            self.encrypt_req(*m),
        ensures
            self.encrypt_ens(*m, c),
    ;

    fn decrypt(&self, c: &Ciphertext) -> (m: BigUint)
        requires
            self.decrypt_req(*c),
        ensures
            self.decrypt_ens(*c, m),
    ;
}

/// Add sign/verify capabilities to the algorithm. Each implementor states,
/// through the associated spec functions, on which inputs its operations
/// are defined and exactly which values they return.
pub trait Sign: Sized {
    /// When signing is defined.
    spec fn sign_req(&self) -> bool;

    /// Exactly what signature signing returns.
    spec fn sign_ens(&self, m: BigUint, sig: Signature) -> bool;

    /// When verification is defined, including the signature shape the
    /// algorithm produces; the mismatched shape is a programming error and
    /// is excluded here.
    spec fn verify_req(&self, sig: Signature) -> bool;

    /// Exactly when verification accepts.
    spec fn verify_ens(&self, m: BigUint, sig: Signature, ok: bool) -> bool;

    fn hash(m: &BigUint) -> (h: BigUint)
        ensures
            bval(h) == digest_of(bval(*m)),
    ;

    fn sign(&self, m: &BigUint) -> (sig: Signature)
        requires
            self.sign_req(),
        ensures
            self.sign_ens(*m, sig),
    ;

    fn verify(&self, m: &BigUint, sig: &Signature) -> (ok: bool)
        requires
            self.verify_req(*sig),
        ensures
            self.verify_ens(*m, *sig, ok),
    ;
}

} // verus!
