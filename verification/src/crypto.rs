//! The digest and the two signature algorithms.

use p256::ecdsa::signature::Verifier;
use p256::ecdsa::{Signature, VerifyingKey};
use rsa::{BigUint, Pkcs1v15Sign, RsaPublicKey};
use sha2::{Digest, Sha256};
use vstd::prelude::*;

verus! {

/// The SHA-256 digest of `bytes`.
pub uninterp spec fn sha256(bytes: Seq<u8>) -> Seq<u8>;

/// `Sha256::digest`, 32 bytes long. Which bytes is left to the name.
#[verifier::external_body]
pub(crate) fn sha256_digest(bytes: &[u8]) -> (r: Vec<u8>)
    ensures
        r@ == sha256(bytes@),
        r@.len() == 32,
{
    Sha256::digest(bytes).to_vec()
}

/// What an outcome complains of, where it does.
pub open spec fn complaint_of(r: Result<(), String>) -> Option<Seq<char>> {
    match r {
        Ok(_) => None,
        Err(e) => Some(e@),
    }
}

/// What is wrong with a modulus and an exponent as an RSA key, where something is.
pub uninterp spec fn rsa_key_complaint(n: Seq<u8>, e: Seq<u8>) -> Option<Seq<char>>;

/// What is wrong with an RSASSA-PKCS1-v1_5 signature with SHA-256, where something is: modulus,
/// exponent, digest, signature.
pub uninterp spec fn rs256_complaint(
    n: Seq<u8>,
    e: Seq<u8>,
    digest: Seq<u8>,
    sig: Seq<u8>,
) -> Option<Seq<char>>;

/// What is wrong with the SEC1 encoding of a point as a P-256 key, where something is.
pub uninterp spec fn ec_key_complaint(point: Seq<u8>) -> Option<Seq<char>>;

/// What is wrong with bytes as the form of a P-256 signature, where something is.
pub uninterp spec fn es256_form_complaint(sig: Seq<u8>) -> Option<Seq<char>>;

/// What is wrong with an ECDSA signature over P-256 with SHA-256, where something is: public point,
/// message, signature.
pub uninterp spec fn es256_complaint(
    point: Seq<u8>,
    message: Seq<u8>,
    sig: Seq<u8>,
) -> Option<Seq<char>>;

/// `RsaPublicKey::new` on the big-endian modulus and exponent: whether it makes a key of them, and
/// what it says where it does not, is left to the name.
#[verifier::external_body]
pub(crate) fn rsa_key_check(n: &[u8], e: &[u8]) -> (r: Result<(), String>)
    ensures
        complaint_of(r) == rsa_key_complaint(n@, e@),
{
    let key = RsaPublicKey::new(BigUint::from_bytes_be(n), BigUint::from_bytes_be(e));
    key.map(|_| ()).map_err(|x| x.to_string())
}

/// `RsaPublicKey::verify` under `Pkcs1v15Sign` for SHA-256, with the key that modulus and exponent
/// make. Its verdict is left to the name.
#[verifier::external_body]
pub(crate) fn rs256_check(n: &[u8], e: &[u8], digest: &[u8], sig: &[u8]) -> (r: Result<(), String>)
    requires
        rsa_key_complaint(n@, e@) is None,
    ensures
        complaint_of(r) == rs256_complaint(n@, e@, digest@, sig@),
{
    RsaPublicKey::new(BigUint::from_bytes_be(n), BigUint::from_bytes_be(e)).and_then(
        |key| key.verify(Pkcs1v15Sign::new::<Sha256>(), digest, sig),
    ).map_err(|x| x.to_string())
}

/// `VerifyingKey::from_sec1_bytes`: whether it makes a key of the point, and what it says where it
/// does not, is left to the name.
#[verifier::external_body]
pub(crate) fn ec_key_check(point: &[u8]) -> (r: Result<(), String>)
    ensures
        complaint_of(r) == ec_key_complaint(point@),
{
    VerifyingKey::from_sec1_bytes(point).map(|_| ()).map_err(|x| x.to_string())
}

/// `Signature::from_slice`: whether the bytes have the form of a signature, and what it says where
/// they have not, is left to the name.
#[verifier::external_body]
pub(crate) fn es256_form_check(sig: &[u8]) -> (r: Result<(), String>)
    ensures
        complaint_of(r) == es256_form_complaint(sig@),
{
    Signature::from_slice(sig).map(|_| ()).map_err(|x| x.to_string())
}

/// `Verifier::verify` of the key that the point makes, on the signature that the bytes make. Its
/// verdict is left to the name.
#[verifier::external_body]
pub(crate) fn es256_check(point: &[u8], message: &[u8], sig: &[u8]) -> (r: Result<(), String>)
    requires
        ec_key_complaint(point@) is None,
        es256_form_complaint(sig@) is None,
    ensures
        complaint_of(r) == es256_complaint(point@, message@, sig@),
{
    VerifyingKey::from_sec1_bytes(point).and_then(
        |key| Signature::from_slice(sig).and_then(|s| key.verify(message, &s)),
    ).map_err(|x| x.to_string())
}

} // verus!
