//! Signing and verifying: the HMAC-SHA256 of a payload under a shared key,
//! carried as lower-case hex text.

use crate::error::WebhookError;
use crate::hexcodec::{
    decode, encode, hex_decode, hex_encode, is_hex, lemma_decode_encode, lemma_encoded_is_hex,
};
use hmac::{Hmac, Mac};
use sha2::Sha256;
use vstd::prelude::*;

verus! {

/// The HMAC-SHA256 of `data` under `key`, as the `hmac` and `sha2` crates
/// compute it. Nothing is known of it but what `mac_of` and `mac_matches`
/// state.
pub uninterp spec fn hmac_sha256(key: Seq<u8>, data: Seq<u8>) -> Seq<u8>;

/// The number of bytes in an HMAC-SHA256.
pub const MAC_LEN: usize = 32;

/// The number of hex digits in a signature.
pub const SIGNATURE_LEN: usize = 64;

/// The signature of `data` under `key`: the hex text of the MAC.
pub open spec fn signature_of(data: Seq<u8>, key: Seq<u8>) -> Seq<u8> {
    hex_encode(hmac_sha256(key, data))
}

/// Whether `signature` is accepted for `data` under `key`: it is hex text,
/// and what it decodes to is the MAC.
pub open spec fn signature_verifies(data: Seq<u8>, key: Seq<u8>, signature: Seq<u8>) -> bool {
    is_hex(signature) && hex_decode(signature) == hmac_sha256(key, data)
}

/// `Hmac::<Sha256>::new_from_slice`, `update` and `finalize` of the `hmac`
/// crate, in this order on one key and one message. For this MAC
/// `new_from_slice` takes a key of any length and never fails, and the output
/// has the 32 bytes of a SHA-256 digest.
#[verifier::external_body]
pub(crate) fn mac_of(key: &[u8], data: &[u8]) -> (mac: Vec<u8>)
    ensures
        mac@ == hmac_sha256(key@, data@),
        mac@.len() == MAC_LEN,
{
    let mut mac = Hmac::<Sha256>::new_from_slice(key).expect("HMAC can take key of any size");
    mac.update(data);
    mac.finalize().into_bytes().to_vec()
}

/// `Hmac::<Sha256>::new_from_slice`, `update` and `verify_slice` of the
/// `hmac` crate. `verify_slice` refuses a tag whose length is not that of the
/// output, 32 bytes, and otherwise compares the tag with the MAC of the
/// message in constant time.
#[verifier::external_body]
pub(crate) fn mac_matches(key: &[u8], data: &[u8], tag: &[u8]) -> (matches: bool)
    ensures
        matches == (tag@ == hmac_sha256(key@, data@)),
        matches ==> tag@.len() == MAC_LEN,
{
    let Ok(mut mac) = Hmac::<Sha256>::new_from_slice(key) else {
        return false;
    };
    mac.update(data);
    mac.verify_slice(tag).is_ok()
}

/// The signature of `data` under `key`: 64 lower-case hex digits, which
/// verify for `data` under `key`.
pub fn sign(data: &[u8], key: &[u8]) -> (signature: Vec<u8>)
    ensures
        signature@ == signature_of(data@, key@),
        signature@.len() == SIGNATURE_LEN,
        signature_verifies(data@, key@, signature@),
{
    proof {
        lemma_sign_then_verify(data@, key@);
    }
    let mac = mac_of(key, data);
    encode(mac.as_slice())
}

/// Whether `signature` is the signature of `data` under `key`. Text that is
/// not 64 hex digits is never accepted; why a signature was refused is not
/// told.
pub fn verify(data: &[u8], key: &[u8], signature: &[u8]) -> (accepted: bool)
    ensures
        accepted == signature_verifies(data@, key@, signature@),
        accepted ==> signature@.len() == SIGNATURE_LEN,
{
    match decode(signature) {
        Some(tag) => mac_matches(key, data, tag.as_slice()),
        None => false,
    }
}

/// The signer: it keeps no state, and both operations depend on their
/// arguments alone.
pub struct Component;

impl Component {
    /// Signs `data` under `key`. Every key and every payload is signed.
    pub fn sign(data: Vec<u8>, key: Vec<u8>) -> (signed: Result<Vec<u8>, WebhookError>)
        ensures
            signed matches Ok(signature) && signature@ == signature_of(data@, key@)
                && signature@.len() == SIGNATURE_LEN && signature_verifies(
                data@,
                key@,
                signature@,
            ),
    {
        Ok(sign(data.as_slice(), key.as_slice()))
    }

    /// Whether `signature` is the signature of `data` under `key`.
    pub fn verify(data: Vec<u8>, key: Vec<u8>, signature: Vec<u8>) -> (accepted: bool)
        ensures
            accepted == signature_verifies(data@, key@, signature@),
            accepted ==> signature@.len() == SIGNATURE_LEN,
    {
        verify(data.as_slice(), key.as_slice(), signature.as_slice())
    }
}

/// A signature verifies against the data and the key that it was made from.
pub proof fn lemma_sign_then_verify(data: Seq<u8>, key: Seq<u8>)
    ensures
        signature_verifies(data, key, signature_of(data, key)),
{
    lemma_encoded_is_hex(hmac_sha256(key, data));
    lemma_decode_encode(hmac_sha256(key, data));
}

/// The signature of one payload verifies against another payload, under the
/// same key, exactly when the two have the same MAC.
pub proof fn lemma_signature_binds_data(signed: Seq<u8>, presented: Seq<u8>, key: Seq<u8>)
    ensures
        signature_verifies(presented, key, signature_of(signed, key)) <==> hmac_sha256(
            key,
            presented,
        ) == hmac_sha256(key, signed),
{
    lemma_encoded_is_hex(hmac_sha256(key, signed));
    lemma_decode_encode(hmac_sha256(key, signed));
}

/// Text that is not hex is the signature of nothing, and a signature that
/// verifies has two digits for each byte of the MAC.
pub proof fn lemma_malformed_signature_rejected(data: Seq<u8>, key: Seq<u8>, signature: Seq<u8>)
    ensures
        !is_hex(signature) ==> !signature_verifies(data, key, signature),
        signature_verifies(data, key, signature) ==> signature.len() == 2 * hmac_sha256(
            key,
            data,
        ).len(),
{
}

} // verus!
