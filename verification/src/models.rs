//! The messages that travel between producer and subscriber, as plain
//! values. How they are written as JSON is not decided here.

use crate::registrations::Registration;
use vstd::prelude::*;

verus! {

/// The application payload of a delivery: an event type and its data.
#[derive(Debug, PartialEq, Eq)]
pub struct SamplePayload {
    pub event: String,
    pub data: String,
}

/// What a `SamplePayload` holds.
pub struct SamplePayloadView {
    pub event: Seq<char>,
    pub data: Seq<char>,
}

impl View for SamplePayload {
    type V = SamplePayloadView;

    open spec fn view(&self) -> SamplePayloadView {
        SamplePayloadView { event: self.event@, data: self.data@ }
    }
}

impl DeepView for SamplePayload {
    type V = SamplePayloadView;

    open spec fn deep_view(&self) -> SamplePayloadView {
        self@
    }
}

impl SamplePayload {
    /// The payload that the demonstration sends to a registration: its event
    /// type, with its own callback URL as data.
    pub fn for_registration(registration: &Registration) -> (payload: SamplePayload)
        ensures
            payload@ == sample_payload_for(registration@),
    {
        SamplePayload { event: registration.event.clone(), data: registration.url.clone() }
    }
}

/// The payload that the demonstration sends to a registration.
pub open spec fn sample_payload_for(
    registration: crate::registrations::RegistrationView,
) -> SamplePayloadView {
    SamplePayloadView { event: registration.event, data: registration.url }
}

/// A request to register a subscriber: where to call it, and for which event.
#[derive(Debug, PartialEq, Eq)]
pub struct RegistrationRequestModel {
    pub url: String,
    pub event: String,
}

/// What a `RegistrationRequestModel` holds.
pub struct RegistrationRequestView {
    pub url: Seq<char>,
    pub event: Seq<char>,
}

impl View for RegistrationRequestModel {
    type V = RegistrationRequestView;

    open spec fn view(&self) -> RegistrationRequestView {
        RegistrationRequestView { url: self.url@, event: self.event@ }
    }
}

impl DeepView for RegistrationRequestModel {
    type V = RegistrationRequestView;

    open spec fn deep_view(&self) -> RegistrationRequestView {
        self@
    }
}

/// The body of the handshake call: the signing key offered to the subscriber.
#[derive(Debug, PartialEq, Eq)]
pub struct VerificationPayload {
    pub key_data: String,
}

impl View for VerificationPayload {
    type V = Seq<char>;

    open spec fn view(&self) -> Seq<char> {
        self.key_data@
    }
}

impl DeepView for VerificationPayload {
    type V = Seq<char>;

    open spec fn deep_view(&self) -> Seq<char> {
        self@
    }
}

/// The answer to an accepted registration: the signing key, handed back to
/// whoever asked for the registration.
#[derive(Debug, PartialEq, Eq)]
pub struct RegistrationResponseModel {
    pub signing_key: String,
}

impl View for RegistrationResponseModel {
    type V = Seq<char>;

    open spec fn view(&self) -> Seq<char> {
        self.signing_key@
    }
}

impl DeepView for RegistrationResponseModel {
    type V = Seq<char>;

    open spec fn deep_view(&self) -> Seq<char> {
        self@
    }
}

impl From<Registration> for RegistrationResponseModel {
    fn from(value: Registration) -> (model: Self) {
        RegistrationResponseModel { signing_key: value.signing_key }
    }
}

impl vstd::std_specs::convert::FromSpecImpl<Registration> for RegistrationResponseModel {
    open spec fn obeys_from_spec() -> bool {
        true
    }

    open spec fn from_spec(value: Registration) -> Self {
        RegistrationResponseModel { signing_key: value.signing_key }
    }
}

/// The body that a subscriber expects of a handshake call.
#[derive(Debug, PartialEq, Eq)]
pub struct HandshakeRequestModel {
    pub key_data: String,
}

impl View for HandshakeRequestModel {
    type V = Seq<char>;

    open spec fn view(&self) -> Seq<char> {
        self.key_data@
    }
}

impl DeepView for HandshakeRequestModel {
    type V = Seq<char>;

    open spec fn deep_view(&self) -> Seq<char> {
        self@
    }
}

} // verus!
