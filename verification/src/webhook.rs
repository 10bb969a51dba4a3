//! Dispatch: a payload is signed with the registration's key and sent to the
//! registration's URL, once.

use crate::error::WebhookError;
use crate::registrations::{Registration, RegistrationView};
use crate::signing::{sign, signature_of};
use vstd::prelude::*;
use vstd::string::*;
use vstd::utf8::encode_utf8;

verus! {

/// The header of a delivery that carries its signature.
pub const SIGNATURE_HEADER: &'static str = "X-Signature";

/// A delivery ready to be sent: a POST to `url` with `body` as its body and
/// `signature` as the value of the signature header.
#[derive(Debug, PartialEq, Eq)]
pub struct SignedRequest {
    pub url: String,
    pub signature: Vec<u8>,
    pub body: Vec<u8>,
}

/// What a `SignedRequest` holds.
pub struct SignedRequestView {
    pub url: Seq<char>,
    pub signature: Seq<u8>,
    pub body: Seq<u8>,
}

impl View for SignedRequest {
    type V = SignedRequestView;

    open spec fn view(&self) -> SignedRequestView {
        SignedRequestView { url: self.url@, signature: self.signature@, body: self.body@ }
    }
}

/// The delivery of `payload` to a registration: it goes to the
/// registration's URL, unchanged, under the signature that the bytes of the
/// registration's key give it.
pub open spec fn signed_request_for(
    registration: RegistrationView,
    payload: Seq<u8>,
) -> SignedRequestView {
    SignedRequestView {
        url: registration.url,
        signature: signature_of(payload, encode_utf8(registration.signing_key)),
        body: payload,
    }
}

/// Whether a delivery went through: by a status from 200 to 299 and by
/// nothing else. No status at all stands for a call that failed or timed out.
pub open spec fn delivery_verdict(status: Option<u16>) -> Result<(), WebhookError> {
    match status {
        Some(code) => if 200 <= code <= 299 {
            Ok(())
        } else {
            Err(WebhookError::DeliveryFailed)
        },
        None => Err(WebhookError::DeliveryFailed),
    }
}

/// Signs `payload` for `registration` and makes the delivery ready to send.
pub fn fire(registration: Registration, payload: Vec<u8>) -> (request: SignedRequest)
    ensures
        request@ == signed_request_for(registration@, payload@),
{
    let signature = sign(payload.as_slice(), registration.signing_key.as_str().as_bytes());
    SignedRequest { url: registration.url, signature, body: payload }
}

/// Judges the one answer to a delivery. `status` is the status of the
/// answer, or `None` where the call failed or timed out. There is no second
/// attempt.
pub fn delivery_outcome(status: Option<u16>) -> (outcome: Result<(), WebhookError>)
    ensures
        outcome == delivery_verdict(status),
{
    match status {
        Some(code) => if 200 <= code && code <= 299 {
            Ok(())
        } else {
            Err(WebhookError::DeliveryFailed)
        },
        None => Err(WebhookError::DeliveryFailed),
    }
}

} // verus!
