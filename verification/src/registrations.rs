//! Registrations and the set of them that the producer keeps: one value under
//! one key of a key-value store, read and written whole.

use crate::error::WebhookError;
use crate::models::VerificationPayload;
use uuid::Uuid;
use vstd::prelude::*;
use vstd::string::*;

verus! {

/// The key under which the producer keeps the whole registration set.
pub const REGISTRATIONS_KEY: &'static str = "ALL_REGISTRATIONS";

/// The number of characters in a signing key.
pub const SIGNING_KEY_LEN: usize = 36;

/// A subscriber's callback URL, the event type it subscribed to, and the
/// secret that producer and subscriber share.
#[derive(Debug, PartialEq, Eq)]
pub struct Registration {
    pub url: String,
    pub event: String,
    pub signing_key: String,
}

/// What a `Registration` holds.
pub struct RegistrationView {
    pub url: Seq<char>,
    pub event: Seq<char>,
    pub signing_key: Seq<char>,
}

impl View for Registration {
    type V = RegistrationView;

    open spec fn view(&self) -> RegistrationView {
        RegistrationView { url: self.url@, event: self.event@, signing_key: self.signing_key@ }
    }
}

impl DeepView for Registration {
    type V = RegistrationView;

    open spec fn deep_view(&self) -> RegistrationView {
        self@
    }
}

impl Clone for Registration {
    fn clone(&self) -> (copy: Self)
        ensures
            copy == *self,
    {
        Registration {
            url: self.url.clone(),
            event: self.event.clone(),
            signing_key: self.signing_key.clone(),
        }
    }
}

/// `Uuid::new_v4` of the `uuid` crate, rendered by `to_string`: 122 bits from
/// the operating system's random source, written in the hyphenated form,
/// which has 36 characters. No two calls need agree, so nothing else is said
/// of the key. The crate panics where the operating system yields no random
/// bytes.
#[verifier::external_body]
pub(crate) fn fresh_signing_key() -> (key: String)
    ensures
        key@.len() == SIGNING_KEY_LEN,
{
    Uuid::new_v4().to_string()
}

impl Registration {
    /// A registration for `url` and `event` with a freshly drawn signing key.
    pub fn new(url: String, event: String) -> (registration: Self)
        ensures
            registration@.url == url@,
            registration@.event == event@,
            registration@.signing_key.len() == SIGNING_KEY_LEN,
    {
        Registration::with_signing_key(url, event, fresh_signing_key())
    }

    /// A registration for `url` and `event` under the given signing key.
    pub fn with_signing_key(url: String, event: String, signing_key: String) -> (registration:
        Self)
        ensures
            registration@ == (RegistrationView {
                url: url@,
                event: event@,
                signing_key: signing_key@,
            }),
    {
        Registration { url, event, signing_key }
    }
}

/// What the producer asks of the backing store, about the one value under
/// `REGISTRATIONS_KEY`.
#[derive(Debug, PartialEq, Eq)]
pub enum StoreRequest {
    /// Read the registration set.
    Read,
    /// Replace the registration set by this one.
    Write(Vec<Registration>),
    /// Say whether a registration set is stored at all.
    Probe,
    /// Remove the registration set.
    Remove,
}

/// What a `StoreRequest` holds.
pub enum StoreRequestView {
    Read,
    Write(Seq<RegistrationView>),
    Probe,
    Remove,
}

impl View for StoreRequest {
    type V = StoreRequestView;

    open spec fn view(&self) -> StoreRequestView {
        match self {
            StoreRequest::Read => StoreRequestView::Read,
            StoreRequest::Write(list) => StoreRequestView::Write(list.deep_view()),
            StoreRequest::Probe => StoreRequestView::Probe,
            StoreRequest::Remove => StoreRequestView::Remove,
        }
    }
}

/// What the backing store answered.
#[derive(Debug, PartialEq, Eq)]
pub enum StoreReply {
    /// The store could not be opened, read or written.
    Failed,
    /// The answer to `Read`: the registration set, or `None` where nothing
    /// is stored under the key.
    Stored(Option<Vec<Registration>>),
    /// The answer to `Probe`.
    Present(bool),
    /// `Write` or `Remove` went through.
    Done,
}

/// What a `StoreReply` holds.
pub enum StoreReplyView {
    Failed,
    Stored(Option<Seq<RegistrationView>>),
    Present(bool),
    Done,
}

impl View for StoreReply {
    type V = StoreReplyView;

    open spec fn view(&self) -> StoreReplyView {
        match self {
            StoreReply::Failed => StoreReplyView::Failed,
            StoreReply::Stored(stored) => StoreReplyView::Stored(stored.deep_view()),
            StoreReply::Present(present) => StoreReplyView::Present(*present),
            StoreReply::Done => StoreReplyView::Done,
        }
    }
}

/// The handshake call: where it goes, and the key it offers.
#[derive(Debug, PartialEq, Eq)]
pub struct HandshakeRequest {
    /// The target of the call: the subscriber's URL with the handshake marker.
    pub url: String,
    /// The body of the call.
    pub payload: VerificationPayload,
}

/// What a `HandshakeRequest` holds.
pub struct HandshakeRequestView {
    pub url: Seq<char>,
    pub key_data: Seq<char>,
}

impl View for HandshakeRequest {
    type V = HandshakeRequestView;

    open spec fn view(&self) -> HandshakeRequestView {
        HandshakeRequestView { url: self.url@, key_data: self.payload@ }
    }
}

/// The registrations that a stored value stands for: none where nothing is
/// stored.
pub open spec fn listed(persisted: Option<Seq<RegistrationView>>) -> Seq<RegistrationView> {
    match persisted {
        Some(list) => list,
        None => Seq::empty(),
    }
}

/// The target of the handshake call for a subscriber's URL.
pub open spec fn handshake_url(url: Seq<char>) -> Seq<char> {
    url + "?handshake=true"@
}

/// The handshake call that offers a registration's key to its subscriber.
pub open spec fn handshake_request_for(registration: RegistrationView) -> HandshakeRequestView {
    HandshakeRequestView {
        url: handshake_url(registration.url),
        key_data: registration.signing_key,
    }
}

/// Whether the handshake was accepted: by status 200 and by nothing else. No
/// status at all stands for a call that failed or timed out.
pub open spec fn handshake_verdict(status: Option<u16>) -> Result<(), WebhookError> {
    if status == Some(200u16) {
        Ok(())
    } else {
        Err(WebhookError::HandshakeRejected)
    }
}

/// The registrations that the answer to `Read` stands for.
pub open spec fn listing(reply: StoreReplyView) -> Result<Seq<RegistrationView>, WebhookError> {
    match reply {
        StoreReplyView::Stored(persisted) => Ok(listed(persisted)),
        _ => Err(WebhookError::Storage),
    }
}

/// The registration set to write back after the answer to `Read`: what was
/// stored, with the new registration at its end.
pub open spec fn appended(reply: StoreReplyView, registration: RegistrationView) -> Result<
    Seq<RegistrationView>,
    WebhookError,
> {
    match listing(reply) {
        Ok(list) => Ok(list.push(registration)),
        Err(error) => Err(error),
    }
}

/// Whether, after the answer to `Probe`, the registration set is to be
/// removed.
pub open spec fn removal_due(reply: StoreReplyView) -> Result<bool, WebhookError> {
    match reply {
        StoreReplyView::Present(present) => Ok(present),
        _ => Err(WebhookError::Storage),
    }
}

/// Whether the store did what `Write` or `Remove` asked.
pub open spec fn acknowledged(reply: StoreReplyView) -> Result<(), WebhookError> {
    match reply {
        StoreReplyView::Done => Ok(()),
        _ => Err(WebhookError::Storage),
    }
}

/// What a store that holds `persisted` and does not fail answers to a
/// request.
pub open spec fn store_reply(
    persisted: Option<Seq<RegistrationView>>,
    request: StoreRequestView,
) -> StoreReplyView {
    match request {
        StoreRequestView::Read => StoreReplyView::Stored(persisted),
        StoreRequestView::Write(_) => StoreReplyView::Done,
        StoreRequestView::Probe => StoreReplyView::Present(persisted is Some),
        StoreRequestView::Remove => StoreReplyView::Done,
    }
}

/// What a store that held `persisted` and does not fail holds after a
/// request.
pub open spec fn store_after(
    persisted: Option<Seq<RegistrationView>>,
    request: StoreRequestView,
) -> Option<Seq<RegistrationView>> {
    match request {
        StoreRequestView::Write(list) => Some(list),
        StoreRequestView::Remove => None,
        _ => persisted,
    }
}

/// The view of a list of registrations that was worked out, or the error.
pub open spec fn list_result(result: Result<Vec<Registration>, WebhookError>) -> Result<
    Seq<RegistrationView>,
    WebhookError,
> {
    match result {
        Ok(list) => Ok(list.deep_view()),
        Err(error) => Err(error),
    }
}

/// What the producer works out about registrations. It touches no store
/// itself: each operation takes what the store answered and gives what is to
/// be kept, asked or reported.
pub struct RegistrationService {}

impl RegistrationService {
    /// The target of the handshake call for a subscriber's URL: the URL with
    /// `?handshake=true` after it.
    pub fn create_handshake_url(url: &String) -> (target: String)
        ensures
            target@ == handshake_url(url@),
    {
        url.clone().concat("?handshake=true")
    }

    /// The handshake call that offers `registration`'s key to its subscriber.
    pub fn handshake_request(registration: &Registration) -> (request: HandshakeRequest)
        ensures
            request@ == handshake_request_for(registration@),
    {
        HandshakeRequest {
            url: Self::create_handshake_url(&registration.url),
            payload: VerificationPayload { key_data: registration.signing_key.clone() },
        }
    }

    /// Judges the one answer to the handshake call. `status` is the status
    /// of the answer, or `None` where the call failed or timed out. Only 200
    /// accepts; there is no second attempt.
    pub fn verify_registration_attempt(status: Option<u16>) -> (verdict: Result<(), WebhookError>)
        ensures
            verdict == handshake_verdict(status),
    {
        match status {
            Some(200) => Ok(()),
            _ => Err(WebhookError::HandshakeRejected),
        }
    }

    /// All registrations, from the answer to `Read`. Nothing stored is an
    /// empty list, not an error.
    pub fn get_all(reply: StoreReply) -> (registrations: Result<Vec<Registration>, WebhookError>)
        ensures
            list_result(registrations) == listing(reply@),
    {
        match reply {
            StoreReply::Stored(Some(list)) => Ok(list),
            StoreReply::Stored(None) => {
                let list: Vec<Registration> = Vec::new();
                assert(list.deep_view() =~= Seq::empty());
                Ok(list)
            },
            _ => Err(WebhookError::Storage),
        }
    }

    /// The registration set to write back when `registration` is added, from
    /// the answer to `Read`: what was stored, in its order, and then the new
    /// one. Between that `Read` and the `Write` that follows the store is not
    /// held: of two additions that run at once, one can be lost.
    pub fn add(reply: StoreReply, registration: &Registration) -> (next: Result<
        Vec<Registration>,
        WebhookError,
    >)
        ensures
            list_result(next) == appended(reply@, registration@),
    {
        match Self::get_all(reply) {
            Ok(list) => {
                let mut list = list;
                let ghost before = list.deep_view();
                list.push(registration.clone());
                assert(list.deep_view() =~= before.push(registration@));
                Ok(list)
            },
            Err(error) => Err(error),
        }
    }

    /// Whether the registration set is to be removed, from the answer to
    /// `Probe`: it is where one is stored, and nothing is to be done where
    /// none is.
    pub fn truncate(reply: StoreReply) -> (removal: Result<bool, WebhookError>)
        ensures
            removal == removal_due(reply@),
    {
        match reply {
            StoreReply::Present(present) => Ok(present),
            _ => Err(WebhookError::Storage),
        }
    }

    /// Whether the store did what `Write` or `Remove` asked of it.
    pub fn acknowledge(reply: StoreReply) -> (outcome: Result<(), WebhookError>)
        ensures
            outcome == acknowledged(reply@),
    {
        match reply {
            StoreReply::Done => Ok(()),
            _ => Err(WebhookError::Storage),
        }
    }
}

} // verus!
