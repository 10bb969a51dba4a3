//! The subscriber's endpoint. One route serves two kinds of request: the
//! handshake, which brings the signing key, and a delivery, which is checked
//! against the key that the last handshake brought.
//!
//! The endpoint is a state machine. Each step takes what happened (a request
//! arrived, the store answered) and says what to do next (write the key,
//! read it, answer). Whoever runs it performs the effect and reports back.

use crate::error::{parsed_or_error, require_parsed, WebhookError};
use crate::models::HandshakeRequestModel;
use crate::response::{bare, failure, Response, ResponseView};
use crate::signing::{signature_verifies, verify};
use vstd::prelude::*;
use vstd::string::*;
use vstd::utf8::encode_utf8;

verus! {

/// The slot under which the subscriber keeps its signing key.
pub const SIGNING_KEY_SLOT: &'static str = "KEYS";

/// Whether `needle` stands in `haystack` from position `start` on.
pub open spec fn occurs_at(haystack: Seq<u8>, needle: Seq<u8>, start: int) -> bool {
    &&& 0 <= start
    &&& start + needle.len() <= haystack.len()
    &&& haystack.subrange(start, start + needle.len()) == needle
}

/// Whether `needle` stands somewhere in `haystack`.
pub open spec fn has_subslice(haystack: Seq<u8>, needle: Seq<u8>) -> bool {
    exists|start: int| occurs_at(haystack, needle, start)
}

/// The bytes that mark a handshake in a query string.
pub open spec fn handshake_marker() -> Seq<u8> {
    "handshake=true".spec_bytes()
}

/// Whether a query string marks its request as a handshake.
pub open spec fn marks_handshake(query: Seq<u8>) -> bool {
    has_subslice(query, handshake_marker())
}

/// Whether `needle` stands somewhere in `haystack`.
pub fn contains_bytes(haystack: &[u8], needle: &[u8]) -> (found: bool)
    ensures
        found == has_subslice(haystack@, needle@),
{
    let n: usize = haystack.len();
    let m: usize = needle.len();
    if m > n {
        return false;
    }
    let mut start: usize = 0;
    while start <= n - m
        invariant
            n == haystack@.len(),
            m == needle@.len(),
            m <= n,
            start <= n - m + 1,
            forall|s: int| 0 <= s < start ==> !occurs_at(haystack@, needle@, s),
        decreases n - m + 1 - start,
    {
        let mut k: usize = 0;
        while k < m && haystack[start + k] == needle[k]
            invariant
                n == haystack@.len(),
                m == needle@.len(),
                start + m <= n,
                k <= m,
                forall|j: int| 0 <= j < k ==> haystack@[start + j] == needle@[j],
            decreases m - k,
        {
            k = k + 1;
        }
        if k == m {
            assert(haystack@.subrange(start as int, start + m) =~= needle@);
            assert(occurs_at(haystack@, needle@, start as int));
            return true;
        }
        assert(!occurs_at(haystack@, needle@, start as int)) by {
            if occurs_at(haystack@, needle@, start as int) {
                assert(haystack@.subrange(start as int, start + m)[k as int] == needle@[k as int]);
            }
        }
        start = start + 1;
    }
    false
}

/// Whether the request with this query string is a handshake: the marker
/// `handshake=true` stands somewhere in it.
pub fn is_handshake(query: &str) -> (handshake: bool)
    ensures
        handshake == marks_handshake(query.spec_bytes()),
{
    contains_bytes(query.as_bytes(), "handshake=true".as_bytes())
}

/// What reading the signing key slot gave.
#[derive(Debug, PartialEq, Eq)]
pub enum KeyRead {
    /// The store could not be opened or read.
    Failed,
    /// No handshake has stored a key yet.
    Absent,
    /// The key that the last handshake stored.
    Present(Vec<u8>),
}

/// What a `KeyRead` holds.
pub enum KeyReadView {
    Failed,
    Absent,
    Present(Seq<u8>),
}

impl View for KeyRead {
    type V = KeyReadView;

    open spec fn view(&self) -> KeyReadView {
        match self {
            KeyRead::Failed => KeyReadView::Failed,
            KeyRead::Absent => KeyReadView::Absent,
            KeyRead::Present(key) => KeyReadView::Present(key@),
        }
    }
}

/// The bytes of a signature header, where there is one.
pub open spec fn header_bytes(signature: Option<Vec<u8>>) -> Option<Seq<u8>> {
    match signature {
        Some(text) => Some(text@),
        None => None,
    }
}

/// Checks a delivery. It passes where a key is stored, a signature came
/// with the delivery, and the signature is that of the body under the key.
/// A store that could not be read is a storage failure; a missing key, a
/// missing signature and a signature that does not verify are all the same
/// failure of verification.
pub open spec fn delivery_check(
    stored: KeyReadView,
    signature: Option<Seq<u8>>,
    body: Seq<u8>,
) -> Result<(), WebhookError> {
    match stored {
        KeyReadView::Failed => Err(WebhookError::Storage),
        KeyReadView::Absent => Err(WebhookError::VerificationFailed),
        KeyReadView::Present(key) => match signature {
            Some(text) => if signature_verifies(body, key, text) {
                Ok(())
            } else {
                Err(WebhookError::VerificationFailed)
            },
            None => Err(WebhookError::VerificationFailed),
        },
    }
}

/// The answer to a delivery: 200 where it passes the check, 500 otherwise.
pub open spec fn delivery_response(
    stored: KeyReadView,
    signature: Option<Seq<u8>>,
    body: Seq<u8>,
) -> ResponseView {
    match delivery_check(stored, signature, body) {
        Ok(_) => bare(200),
        Err(error) => failure(error),
    }
}

/// Checks a delivery, given what reading the key slot gave, the signature
/// header if there was one, and the raw body: see `delivery_check`.
pub fn check_delivery(stored: &KeyRead, signature: &Option<Vec<u8>>, body: &Vec<u8>) -> (checked:
    Result<(), WebhookError>)
    ensures
        checked == delivery_check(stored@, header_bytes(*signature), body@),
{
    match stored {
        KeyRead::Failed => Err(WebhookError::Storage),
        KeyRead::Absent => Err(WebhookError::VerificationFailed),
        KeyRead::Present(key) => match signature {
            Some(text) => if verify(body.as_slice(), key.as_slice(), text.as_slice()) {
                Ok(())
            } else {
                Err(WebhookError::VerificationFailed)
            },
            None => Err(WebhookError::VerificationFailed),
        },
    }
}

/// Answers a delivery: 200 where it passes the check, 500 where it does
/// not. Nothing in the answer tells a missing key from a missing, malformed
/// or wrong signature.
pub fn handle_webhook_invocation(
    stored: &KeyRead,
    signature: &Option<Vec<u8>>,
    body: &Vec<u8>,
) -> (response: Response)
    ensures
        response@ == delivery_response(stored@, header_bytes(*signature), body@),
{
    match check_delivery(stored, signature, body) {
        Ok(_) => Response::new(200),
        Err(error) => Response::failed(error),
    }
}

/// A request as it reaches the endpoint.
#[derive(Debug, PartialEq, Eq)]
pub struct Inbound {
    /// The query string of the request's target.
    pub query: String,
    /// The value of the signature header, where the request has one.
    pub signature: Option<Vec<u8>>,
    /// The raw body.
    pub body: Vec<u8>,
}

/// What an `Inbound` holds.
pub struct InboundView {
    pub query: Seq<char>,
    pub signature: Option<Seq<u8>>,
    pub body: Seq<u8>,
}

impl View for Inbound {
    type V = InboundView;

    open spec fn view(&self) -> InboundView {
        InboundView {
            query: self.query@,
            signature: header_bytes(self.signature),
            body: self.body@,
        }
    }
}

/// Where the endpoint stands in answering one request.
#[derive(Debug, PartialEq, Eq)]
pub enum ConsumerState {
    /// Nothing has arrived yet.
    Idle,
    /// A handshake arrived; its body is being parsed.
    Parsing,
    /// The key of a handshake is being written to the store.
    Storing,
    /// A delivery arrived; the stored key is being read.
    Loading { signature: Option<Vec<u8>>, body: Vec<u8> },
    /// The request has been answered.
    Finished,
}

/// What a `ConsumerState` holds.
pub enum ConsumerStateView {
    Idle,
    Parsing,
    Storing,
    Loading { signature: Option<Seq<u8>>, body: Seq<u8> },
    Finished,
}

impl View for ConsumerState {
    type V = ConsumerStateView;

    open spec fn view(&self) -> ConsumerStateView {
        match self {
            ConsumerState::Idle => ConsumerStateView::Idle,
            ConsumerState::Parsing => ConsumerStateView::Parsing,
            ConsumerState::Storing => ConsumerStateView::Storing,
            ConsumerState::Loading { signature, body } => ConsumerStateView::Loading {
                signature: header_bytes(*signature),
                body: body@,
            },
            ConsumerState::Finished => ConsumerStateView::Finished,
        }
    }
}

/// What happened since the last step.
#[derive(Debug, PartialEq, Eq)]
pub enum ConsumerEvent {
    /// A request arrived.
    Arrived(Inbound),
    /// The body was parsed as a handshake request; `None` where it does not
    /// parse.
    Parsed(Option<HandshakeRequestModel>),
    /// The store was asked to keep the key; `true` where it did.
    KeyStored(bool),
    /// The key slot was read.
    KeyLoaded(KeyRead),
}

/// What a `ConsumerEvent` holds.
pub enum ConsumerEventView {
    Arrived(InboundView),
    Parsed(Option<Seq<char>>),
    KeyStored(bool),
    KeyLoaded(KeyReadView),
}

impl View for ConsumerEvent {
    type V = ConsumerEventView;

    open spec fn view(&self) -> ConsumerEventView {
        match self {
            ConsumerEvent::Arrived(inbound) => ConsumerEventView::Arrived(inbound@),
            ConsumerEvent::Parsed(model) => ConsumerEventView::Parsed(
                match model {
                    Some(m) => Some(m@),
                    None => None,
                },
            ),
            ConsumerEvent::KeyStored(done) => ConsumerEventView::KeyStored(*done),
            ConsumerEvent::KeyLoaded(read) => ConsumerEventView::KeyLoaded(read@),
        }
    }
}

/// What is to be done next.
#[derive(Debug, PartialEq, Eq)]
pub enum ConsumerEffect {
    /// Parse the request's body as a handshake request and report `Parsed`.
    ParseHandshake,
    /// Put these bytes into the key slot, over whatever is there, and report
    /// `KeyStored`.
    StoreKey(Vec<u8>),
    /// Read the key slot and report `KeyLoaded`.
    LoadKey,
    /// Answer the request; nothing follows.
    Respond(Response),
}

/// What a `ConsumerEffect` holds.
pub enum ConsumerEffectView {
    ParseHandshake,
    StoreKey(Seq<u8>),
    LoadKey,
    Respond(ResponseView),
}

impl View for ConsumerEffect {
    type V = ConsumerEffectView;

    open spec fn view(&self) -> ConsumerEffectView {
        match self {
            ConsumerEffect::ParseHandshake => ConsumerEffectView::ParseHandshake,
            ConsumerEffect::StoreKey(key) => ConsumerEffectView::StoreKey(key@),
            ConsumerEffect::LoadKey => ConsumerEffectView::LoadKey,
            ConsumerEffect::Respond(response) => ConsumerEffectView::Respond(response@),
        }
    }
}

/// The step that ends a request which the endpoint cannot go on with.
pub open spec fn consumer_failure() -> (ConsumerStateView, ConsumerEffectView) {
    (ConsumerStateView::Finished, ConsumerEffectView::Respond(bare(500)))
}

/// The key that a handshake brings, as the bytes to keep: the bytes of the
/// text in its body. A body that did not parse brings none.
pub open spec fn handshake_key(parsed: Option<Seq<char>>) -> Result<Seq<u8>, WebhookError> {
    match parsed_or_error(parsed) {
        Ok(key_data) => Ok(encode_utf8(key_data)),
        Err(error) => Err(error),
    }
}

/// Whether the store kept the key.
pub open spec fn key_kept(stored: bool) -> Result<(), WebhookError> {
    if stored {
        Ok(())
    } else {
        Err(WebhookError::Storage)
    }
}

/// The handshake branch. A body that does not parse is answered with 400.
/// One that does has its key written to the store, as the bytes of its
/// text; the answer is 200 once the store has kept it, and 500 where it
/// could not.
pub open spec fn handshake_step(state: ConsumerStateView, event: ConsumerEventView) -> (
    ConsumerStateView,
    ConsumerEffectView,
) {
    match (state, event) {
        (ConsumerStateView::Parsing, ConsumerEventView::Parsed(parsed)) => match handshake_key(
            parsed,
        ) {
            Ok(key) => (ConsumerStateView::Storing, ConsumerEffectView::StoreKey(key)),
            Err(error) => (
                ConsumerStateView::Finished,
                ConsumerEffectView::Respond(failure(error)),
            ),
        },
        (ConsumerStateView::Storing, ConsumerEventView::KeyStored(stored)) => match key_kept(
            stored,
        ) {
            Ok(_) => (ConsumerStateView::Finished, ConsumerEffectView::Respond(bare(200))),
            Err(error) => (
                ConsumerStateView::Finished,
                ConsumerEffectView::Respond(failure(error)),
            ),
        },
        _ => consumer_failure(),
    }
}

/// One step of the endpoint. A request whose query string marks a handshake
/// goes the handshake branch; any other is a delivery, which is answered
/// once the stored key has been read. An event that does not fit the state
/// ends the request with 500.
pub open spec fn consumer_step(state: ConsumerStateView, event: ConsumerEventView) -> (
    ConsumerStateView,
    ConsumerEffectView,
) {
    match (state, event) {
        (ConsumerStateView::Idle, ConsumerEventView::Arrived(inbound)) => {
            if marks_handshake(encode_utf8(inbound.query)) {
                (ConsumerStateView::Parsing, ConsumerEffectView::ParseHandshake)
            } else {
                (
                    ConsumerStateView::Loading { signature: inbound.signature, body: inbound.body },
                    ConsumerEffectView::LoadKey,
                )
            }
        },
        (ConsumerStateView::Parsing, _) => handshake_step(state, event),
        (ConsumerStateView::Storing, _) => handshake_step(state, event),
        (ConsumerStateView::Loading { signature, body }, ConsumerEventView::KeyLoaded(stored)) => (
            ConsumerStateView::Finished,
            ConsumerEffectView::Respond(delivery_response(stored, signature, body)),
        ),
        _ => consumer_failure(),
    }
}

/// One step of the handshake branch: see `handshake_step`.
pub fn handle_hanshake(state: ConsumerState, event: ConsumerEvent) -> (step: (
    ConsumerState,
    ConsumerEffect,
))
    ensures
        (step.0@, step.1@) == handshake_step(state@, event@),
{
    match (state, event) {
        (ConsumerState::Parsing, ConsumerEvent::Parsed(parsed)) => match require_parsed(parsed) {
            Ok(model) => (
                ConsumerState::Storing,
                ConsumerEffect::StoreKey(model.key_data.as_str().as_bytes_vec()),
            ),
            Err(error) => (
                ConsumerState::Finished,
                ConsumerEffect::Respond(Response::failed(error)),
            ),
        },
        (ConsumerState::Storing, ConsumerEvent::KeyStored(stored)) => {
            if stored {
                (ConsumerState::Finished, ConsumerEffect::Respond(Response::new(200)))
            } else {
                (
                    ConsumerState::Finished,
                    ConsumerEffect::Respond(Response::failed(WebhookError::Storage)),
                )
            }
        },
        _ => (ConsumerState::Finished, ConsumerEffect::Respond(Response::new(500))),
    }
}

/// One step of the endpoint: see `consumer_step`.
pub fn handle_invocation(state: ConsumerState, event: ConsumerEvent) -> (step: (
    ConsumerState,
    ConsumerEffect,
))
    ensures
        (step.0@, step.1@) == consumer_step(state@, event@),
{
    match (state, event) {
        (ConsumerState::Idle, ConsumerEvent::Arrived(inbound)) => {
            if is_handshake(inbound.query.as_str()) {
                (ConsumerState::Parsing, ConsumerEffect::ParseHandshake)
            } else {
                (
                    ConsumerState::Loading { signature: inbound.signature, body: inbound.body },
                    ConsumerEffect::LoadKey,
                )
            }
        },
        (ConsumerState::Parsing, event) => handle_hanshake(ConsumerState::Parsing, event),
        (ConsumerState::Storing, event) => handle_hanshake(ConsumerState::Storing, event),
        (ConsumerState::Loading { signature, body }, ConsumerEvent::KeyLoaded(stored)) => (
            ConsumerState::Finished,
            ConsumerEffect::Respond(handle_webhook_invocation(&stored, &signature, &body)),
        ),
        _ => (ConsumerState::Finished, ConsumerEffect::Respond(Response::new(500))),
    }
}

} // verus!
