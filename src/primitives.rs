//! Keyed message authentication codes, computed by the `hmac`, `sha1` and
//! `sha2` crates.
use hmac::{Hmac, Mac};
use sha1::Sha1;
use sha2::Sha256;
use vstd::prelude::*;

verus! {

/// HMAC-SHA1 of a message under a key.
pub uninterp spec fn hmac_sha1_of(key: Seq<u8>, message: Seq<u8>) -> Seq<u8>;

/// HMAC-SHA256 of a message under a key.
pub uninterp spec fn hmac_sha256_of(key: Seq<u8>, message: Seq<u8>) -> Seq<u8>;

/// Relies on `Mac::new_from_slice`, `Mac::update` and `Mac::finalize` of
/// `Hmac<Sha1>`: the 20-byte tag of the message under the key. HMAC takes a
/// key of any length, so `new_from_slice` always succeeds.
#[verifier::external_body]
pub(crate) fn hmac_sha1(key: &[u8], message: &[u8]) -> (r: Vec<u8>)
    ensures
        r@ == hmac_sha1_of(key@, message@),
        r@.len() == 20,
{
    match <Hmac<Sha1> as Mac>::new_from_slice(key) {
        Ok(mut mac) => {
            mac.update(message);
            mac.finalize().into_bytes().to_vec()
        },
        Err(_) => Vec::new(),
    }
}

/// Relies on `Mac::verify_slice` of `Hmac<Sha1>`: succeeds exactly when the
/// tag equals the 20-byte tag of the message under the key.
#[verifier::external_body]
pub(crate) fn hmac_sha1_verify(key: &[u8], message: &[u8], tag: &[u8]) -> (r: bool)
    ensures
        r == (tag@ == hmac_sha1_of(key@, message@)),
        r ==> tag@.len() == 20,
{
    match <Hmac<Sha1> as Mac>::new_from_slice(key) {
        Ok(mut mac) => {
            mac.update(message);
            mac.verify_slice(tag).is_ok()
        },
        Err(_) => false,
    }
}

/// Relies on `Mac::new_from_slice`, `Mac::update` and `Mac::finalize` of
/// `Hmac<Sha256>`: the 32-byte tag of the message under the key. HMAC takes a
/// key of any length, so `new_from_slice` always succeeds.
#[verifier::external_body]
pub(crate) fn hmac_sha256(key: &[u8], message: &[u8]) -> (r: Vec<u8>)
    ensures
        r@ == hmac_sha256_of(key@, message@),
        r@.len() == 32,
{
    match <Hmac<Sha256> as Mac>::new_from_slice(key) {
        Ok(mut mac) => {
            mac.update(message);
            mac.finalize().into_bytes().to_vec()
        },
        Err(_) => Vec::new(),
    }
}

/// Relies on `Mac::verify_slice` of `Hmac<Sha256>`: succeeds exactly when the
/// tag equals the 32-byte tag of the message under the key.
#[verifier::external_body]
pub(crate) fn hmac_sha256_verify(key: &[u8], message: &[u8], tag: &[u8]) -> (r: bool)
    ensures
        r == (tag@ == hmac_sha256_of(key@, message@)),
        r ==> tag@.len() == 32,
{
    match <Hmac<Sha256> as Mac>::new_from_slice(key) {
        Ok(mut mac) => {
            mac.update(message);
            mac.verify_slice(tag).is_ok()
        },
        Err(_) => false,
    }
}

} // verus!
