//! The ways in which one request can fail. None of them ends the process:
//! each is reported for the request it arose in.

use vstd::prelude::*;

verus! {

/// Why an operation of the producer or of the subscriber did not go through.
#[derive(Debug, Clone, Copy, PartialEq, Eq, Structural)]
pub enum WebhookError {
    /// An inbound body did not parse against the schema expected of it.
    Payload,
    /// The backing store could not be read or written.
    Storage,
    /// The subscriber's handshake endpoint answered with a status other than
    /// 200, or could not be reached.
    HandshakeRejected,
    /// A signature did not match, was malformed, or was missing.
    VerificationFailed,
    /// A delivery was answered with a status outside 200..=299, or could not
    /// be sent.
    DeliveryFailed,
}

impl WebhookError {
    /// The status that an endpoint answers with when it ends in this error.
    pub open spec fn spec_status(self) -> u16 {
        match self {
            WebhookError::Payload => 400,
            _ => 500,
        }
    }

    /// The status that an endpoint answers with when it ends in this error:
    /// 400 for a body that did not parse, 500 for everything else.
    pub fn status(&self) -> (code: u16)
        ensures
            code == self.spec_status(),
    {
        match self {
            WebhookError::Payload => 400,
            _ => 500,
        }
    }
}

/// What a body parsed to, or the error for a body that did not parse.
pub open spec fn parsed_or_error<T>(parsed: Option<T>) -> Result<T, WebhookError> {
    match parsed {
        Some(value) => Ok(value),
        None => Err(WebhookError::Payload),
    }
}

/// What a body parsed to, or `Payload` for a body that did not parse.
pub fn require_parsed<T>(parsed: Option<T>) -> (outcome: Result<T, WebhookError>)
    ensures
        outcome == parsed_or_error(parsed),
{
    match parsed {
        Some(value) => Ok(value),
        None => Err(WebhookError::Payload),
    }
}

} // verus!
