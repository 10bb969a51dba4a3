//! The producer's four endpoints: register a subscriber, list the
//! registrations, remove them all, fire a demonstration delivery at each.
//!
//! Each endpoint is a state machine. A step takes what happened (the request
//! arrived, the subscriber or the store answered) and says what to do next
//! (call the subscriber, ask the store, answer). Whoever runs the machine
//! performs the effect and reports back with the next event, until the
//! effect is `Respond`.

use crate::error::{parsed_or_error, require_parsed, WebhookError};
use crate::models::{
    sample_payload_for, RegistrationRequestModel, RegistrationRequestView,
    RegistrationResponseModel, SamplePayload, SamplePayloadView,
};
use crate::registrations::{
    acknowledged, appended, handshake_request_for, handshake_verdict, listing, removal_due,
    HandshakeRequest, HandshakeRequestView, Registration, RegistrationService, RegistrationView,
    fresh_signing_key, StoreReply, StoreReplyView, StoreRequest, StoreRequestView,
    SIGNING_KEY_LEN,
};
use crate::response::{bare, failure, Response, ResponseBody, ResponseBodyView, ResponseView};
use crate::webhook::{fire, signed_request_for, SignedRequest, SignedRequestView};
use vstd::prelude::*;
use vstd::string::*;

verus! {

/// What happened since the last step.
#[derive(Debug, PartialEq, Eq)]
pub enum Event {
    /// A request arrived at an endpoint that reads nothing from it.
    Invoked,
    /// A request to register arrived; `None` where its body does not parse.
    Request(Option<RegistrationRequestModel>),
    /// The handshake call ended: with this status, or with none where it
    /// failed or timed out.
    Handshake(Option<u16>),
    /// The backing store answered.
    Store(StoreReply),
    /// The payload was serialized to these bytes.
    Encoded(Vec<u8>),
    /// A delivery ended: with this status, or with none where it failed or
    /// timed out.
    Delivered(Option<u16>),
}

/// What an `Event` holds.
pub enum EventView {
    Invoked,
    Request(Option<RegistrationRequestView>),
    Handshake(Option<u16>),
    Store(StoreReplyView),
    Encoded(Seq<u8>),
    Delivered(Option<u16>),
}

impl View for Event {
    type V = EventView;

    open spec fn view(&self) -> EventView {
        match self {
            Event::Invoked => EventView::Invoked,
            Event::Request(model) => EventView::Request(
                match model {
                    Some(m) => Some(m@),
                    None => None,
                },
            ),
            Event::Handshake(status) => EventView::Handshake(*status),
            Event::Store(reply) => EventView::Store(reply@),
            Event::Encoded(bytes) => EventView::Encoded(bytes@),
            Event::Delivered(status) => EventView::Delivered(*status),
        }
    }
}

/// What is to be done next.
#[derive(Debug, PartialEq, Eq)]
pub enum Effect {
    /// Make the handshake call, await its one answer, report `Handshake`.
    Handshake(HandshakeRequest),
    /// Ask the backing store, report `Store`.
    Store(StoreRequest),
    /// Serialize the payload, report `Encoded`.
    Encode(SamplePayload),
    /// Send the delivery, await its one answer, report `Delivered`.
    Deliver(SignedRequest),
    /// Answer the request; nothing follows.
    Respond(Response),
}

/// What an `Effect` holds.
pub enum EffectView {
    Handshake(HandshakeRequestView),
    Store(StoreRequestView),
    Encode(SamplePayloadView),
    Deliver(SignedRequestView),
    Respond(ResponseView),
}

impl View for Effect {
    type V = EffectView;

    open spec fn view(&self) -> EffectView {
        match self {
            Effect::Handshake(request) => EffectView::Handshake(request@),
            Effect::Store(request) => EffectView::Store(request@),
            Effect::Encode(payload) => EffectView::Encode(payload@),
            Effect::Deliver(request) => EffectView::Deliver(request@),
            Effect::Respond(response) => EffectView::Respond(response@),
        }
    }
}

/// The answer to a request to register whose body does not parse.
pub open spec fn invalid_payload() -> ResponseView {
    ResponseView {
        status: WebhookError::Payload.spec_status(),
        body: ResponseBodyView::Text("Invalid Payload received"@),
    }
}

/// The answer to an accepted registration: the signing key.
pub open spec fn signing_key_response(signing_key: Seq<char>) -> ResponseView {
    ResponseView { status: 200, body: ResponseBodyView::SigningKey(signing_key) }
}

/// The answer that lists the registrations.
pub open spec fn registrations_response(list: Seq<RegistrationView>) -> ResponseView {
    ResponseView { status: 200, body: ResponseBodyView::Registrations(list) }
}

/// Where the listing endpoint stands.
#[derive(Debug, Clone, Copy, PartialEq, Eq, Structural)]
pub enum DumpState {
    Idle,
    Reading,
    Finished,
}

/// One step of the listing endpoint. It reads the registration set and
/// answers 200 with all of it, or 500 where the store failed. An event that
/// does not fit the state ends the request with 500.
pub open spec fn dump_step(state: DumpState, event: EventView) -> (DumpState, EffectView) {
    match (state, event) {
        (DumpState::Idle, EventView::Invoked) => (
            DumpState::Reading,
            EffectView::Store(StoreRequestView::Read),
        ),
        (DumpState::Reading, EventView::Store(reply)) => match listing(reply) {
            Ok(list) => (DumpState::Finished, EffectView::Respond(registrations_response(list))),
            Err(error) => (DumpState::Finished, EffectView::Respond(failure(error))),
        },
        _ => (DumpState::Finished, EffectView::Respond(bare(500))),
    }
}

/// One step of the listing endpoint: see `dump_step`.
pub fn dump_registrations(state: DumpState, event: Event) -> (step: (DumpState, Effect))
    ensures
        (step.0, step.1@) == dump_step(state, event@),
{
    match (state, event) {
        (DumpState::Idle, Event::Invoked) => (DumpState::Reading, Effect::Store(StoreRequest::Read)),
        (DumpState::Reading, Event::Store(reply)) => match RegistrationService::get_all(reply) {
            Ok(list) => (
                DumpState::Finished,
                Effect::Respond(Response { status: 200, body: ResponseBody::Registrations(list) }),
            ),
            Err(error) => (DumpState::Finished, Effect::Respond(Response::failed(error))),
        },
        _ => (DumpState::Finished, Effect::Respond(Response::new(500))),
    }
}

/// Where the truncating endpoint stands.
#[derive(Debug, Clone, Copy, PartialEq, Eq, Structural)]
pub enum TruncateState {
    Idle,
    Probing,
    Removing,
    Finished,
}

/// One step of the truncating endpoint. It asks whether a registration set
/// is stored, removes it where one is, and answers 204 either way; it answers
/// 500 where the store failed. An event that does not fit the state ends the
/// request with 500.
pub open spec fn truncate_step(state: TruncateState, event: EventView) -> (
    TruncateState,
    EffectView,
) {
    match (state, event) {
        (TruncateState::Idle, EventView::Invoked) => (
            TruncateState::Probing,
            EffectView::Store(StoreRequestView::Probe),
        ),
        (TruncateState::Probing, EventView::Store(reply)) => match removal_due(reply) {
            Ok(true) => (TruncateState::Removing, EffectView::Store(StoreRequestView::Remove)),
            Ok(false) => (TruncateState::Finished, EffectView::Respond(bare(204))),
            Err(error) => (TruncateState::Finished, EffectView::Respond(failure(error))),
        },
        (TruncateState::Removing, EventView::Store(reply)) => match acknowledged(reply) {
            Ok(_) => (TruncateState::Finished, EffectView::Respond(bare(204))),
            Err(error) => (TruncateState::Finished, EffectView::Respond(failure(error))),
        },
        _ => (TruncateState::Finished, EffectView::Respond(bare(500))),
    }
}

/// One step of the truncating endpoint: see `truncate_step`.
pub fn truncate_registrations(state: TruncateState, event: Event) -> (step: (
    TruncateState,
    Effect,
))
    ensures
        (step.0, step.1@) == truncate_step(state, event@),
{
    match (state, event) {
        (TruncateState::Idle, Event::Invoked) => (
            TruncateState::Probing,
            Effect::Store(StoreRequest::Probe),
        ),
        (TruncateState::Probing, Event::Store(reply)) => match RegistrationService::truncate(
            reply,
        ) {
            Ok(true) => (TruncateState::Removing, Effect::Store(StoreRequest::Remove)),
            Ok(false) => (TruncateState::Finished, Effect::Respond(Response::new(204))),
            Err(error) => (TruncateState::Finished, Effect::Respond(Response::failed(error))),
        },
        (TruncateState::Removing, Event::Store(reply)) => match RegistrationService::acknowledge(
            reply,
        ) {
            Ok(_) => (TruncateState::Finished, Effect::Respond(Response::new(204))),
            Err(error) => (TruncateState::Finished, Effect::Respond(Response::failed(error))),
        },
        _ => (TruncateState::Finished, Effect::Respond(Response::new(500))),
    }
}

/// Where the registering endpoint stands.
#[derive(Debug, PartialEq, Eq)]
pub enum RegisterState {
    /// Nothing has arrived yet.
    Idle,
    /// The handshake call for this registration is under way.
    Handshaking(Registration),
    /// The handshake was accepted; the registration set is being read.
    Reading(Registration),
    /// The registration set with this registration at its end is being
    /// written.
    Writing(Registration),
    /// The request has been answered.
    Finished,
}

/// What a `RegisterState` holds.
pub enum RegisterStateView {
    Idle,
    Handshaking(RegistrationView),
    Reading(RegistrationView),
    Writing(RegistrationView),
    Finished,
}

impl View for RegisterState {
    type V = RegisterStateView;

    open spec fn view(&self) -> RegisterStateView {
        match self {
            RegisterState::Idle => RegisterStateView::Idle,
            RegisterState::Handshaking(registration) => RegisterStateView::Handshaking(
                registration@,
            ),
            RegisterState::Reading(registration) => RegisterStateView::Reading(registration@),
            RegisterState::Writing(registration) => RegisterStateView::Writing(registration@),
            RegisterState::Finished => RegisterStateView::Finished,
        }
    }
}

/// The step that ends a registration in `error`.
pub open spec fn register_failure(error: WebhookError) -> (RegisterStateView, EffectView) {
    (RegisterStateView::Finished, EffectView::Respond(failure(error)))
}

/// One step of the registering endpoint, where `signing_key` is the key
/// drawn for the registration.
///
/// A body that does not parse is answered with 400. Otherwise the key is
/// offered to the subscriber in the handshake call. Only when that call is
/// answered with 200 is the store touched: the registration set is read and
/// written back with the new registration at its end, and the key goes to
/// the caller with status 200. Any other end of the handshake, and any
/// failure of the store, is answered with 500, and nothing is written after
/// it. An event that does not fit the state ends the request with 500.
pub open spec fn register_step(
    state: RegisterStateView,
    event: EventView,
    signing_key: Seq<char>,
) -> (RegisterStateView, EffectView) {
    match (state, event) {
        (RegisterStateView::Idle, EventView::Request(parsed)) => match parsed_or_error(parsed) {
            Ok(request) => {
                let registration = RegistrationView {
                    url: request.url,
                    event: request.event,
                    signing_key,
                };
                (
                    RegisterStateView::Handshaking(registration),
                    EffectView::Handshake(handshake_request_for(registration)),
                )
            },
            Err(_) => (RegisterStateView::Finished, EffectView::Respond(invalid_payload())),
        },
        (RegisterStateView::Handshaking(registration), EventView::Handshake(status)) => {
            match handshake_verdict(status) {
                Ok(_) => (
                    RegisterStateView::Reading(registration),
                    EffectView::Store(StoreRequestView::Read),
                ),
                Err(error) => register_failure(error),
            }
        },
        (RegisterStateView::Reading(registration), EventView::Store(reply)) => {
            match appended(reply, registration) {
                Ok(list) => (
                    RegisterStateView::Writing(registration),
                    EffectView::Store(StoreRequestView::Write(list)),
                ),
                Err(error) => register_failure(error),
            }
        },
        (RegisterStateView::Writing(registration), EventView::Store(reply)) => {
            match acknowledged(reply) {
                Ok(_) => (
                    RegisterStateView::Finished,
                    EffectView::Respond(signing_key_response(registration.signing_key)),
                ),
                Err(error) => register_failure(error),
            }
        },
        _ => (RegisterStateView::Finished, EffectView::Respond(bare(500))),
    }
}

/// One step of the registering endpoint with the key given: see
/// `register_step`. The key is used in the step that takes the request, and
/// in no other.
pub fn register_with_key(state: RegisterState, event: Event, signing_key: String) -> (step: (
    RegisterState,
    Effect,
))
    ensures
        (step.0@, step.1@) == register_step(state@, event@, signing_key@),
{
    match (state, event) {
        (RegisterState::Idle, Event::Request(parsed)) => match require_parsed(parsed) {
            Ok(request) => {
                let registration = Registration::with_signing_key(
                    request.url,
                    request.event,
                    signing_key,
                );
                let call = RegistrationService::handshake_request(&registration);
                (RegisterState::Handshaking(registration), Effect::Handshake(call))
            },
            Err(error) => (
                RegisterState::Finished,
                Effect::Respond(
                    Response {
                        status: error.status(),
                        body: ResponseBody::Text("Invalid Payload received".to_owned()),
                    },
                ),
            ),
        },
        (RegisterState::Handshaking(registration), Event::Handshake(status)) => {
            match RegistrationService::verify_registration_attempt(status) {
                Ok(_) => (RegisterState::Reading(registration), Effect::Store(StoreRequest::Read)),
                Err(error) => (RegisterState::Finished, Effect::Respond(Response::failed(error))),
            }
        },
        (RegisterState::Reading(registration), Event::Store(reply)) => {
            match RegistrationService::add(reply, &registration) {
                Ok(list) => (
                    RegisterState::Writing(registration),
                    Effect::Store(StoreRequest::Write(list)),
                ),
                Err(error) => (RegisterState::Finished, Effect::Respond(Response::failed(error))),
            }
        },
        (RegisterState::Writing(registration), Event::Store(reply)) => {
            match RegistrationService::acknowledge(reply) {
                Ok(_) => (
                    RegisterState::Finished,
                    Effect::Respond(
                        Response {
                            status: 200,
                            body: ResponseBody::SigningKey(
                                RegistrationResponseModel::from(registration),
                            ),
                        },
                    ),
                ),
                Err(error) => (RegisterState::Finished, Effect::Respond(Response::failed(error))),
            }
        },
        _ => (RegisterState::Finished, Effect::Respond(Response::new(500))),
    }
}

/// One step of the registering endpoint: see `register_step`. The step that
/// takes the request draws a fresh signing key for the registration; which
/// key comes out is not determined, only that it has 36 characters.
pub fn register_webhook(state: RegisterState, event: Event) -> (step: (RegisterState, Effect))
    ensures
        exists|signing_key: Seq<char>|
            signing_key.len() == SIGNING_KEY_LEN && (step.0@, step.1@) == #[trigger] register_step(
                state@,
                event@,
                signing_key,
            ),
{
    let draws = match (&state, &event) {
        (RegisterState::Idle, Event::Request(Some(_))) => true,
        _ => false,
    };
    if draws {
        register_with_key(state, event, fresh_signing_key())
    } else {
        proof {
            let unused = Seq::new(SIGNING_KEY_LEN as nat, |i: int| '0');
            assert(register_step(state@, event@, unused) == register_step(
                state@,
                event@,
                Seq::empty(),
            ));
        }
        register_with_key(state, event, String::new())
    }
}

/// Where the demonstration endpoint stands.
#[derive(Debug, PartialEq, Eq)]
pub enum FireState {
    /// Nothing has arrived yet.
    Idle,
    /// The registration set is being read.
    Reading,
    /// The payload for registration number `next` is being serialized.
    Encoding { registrations: Vec<Registration>, next: usize },
    /// The delivery to registration number `next` is under way.
    Delivering { registrations: Vec<Registration>, next: usize },
    /// The request has been answered.
    Finished,
}

/// What a `FireState` holds.
pub enum FireStateView {
    Idle,
    Reading,
    Encoding { registrations: Seq<RegistrationView>, next: int },
    Delivering { registrations: Seq<RegistrationView>, next: int },
    Finished,
}

impl View for FireState {
    type V = FireStateView;

    open spec fn view(&self) -> FireStateView {
        match self {
            FireState::Idle => FireStateView::Idle,
            FireState::Reading => FireStateView::Reading,
            FireState::Encoding { registrations, next } => FireStateView::Encoding {
                registrations: registrations.deep_view(),
                next: *next as int,
            },
            FireState::Delivering { registrations, next } => FireStateView::Delivering {
                registrations: registrations.deep_view(),
                next: *next as int,
            },
            FireState::Finished => FireStateView::Finished,
        }
    }
}

impl FireStateView {
    /// Whether the state points at a registration of its list wherever it
    /// points at one. Every state that a run from `Idle` comes to does.
    pub open spec fn well_formed(self) -> bool {
        match self {
            FireStateView::Encoding { registrations, next } => 0 <= next < registrations.len(),
            FireStateView::Delivering { registrations, next } => 0 <= next < registrations.len(),
            _ => true,
        }
    }
}

/// The step that ends a demonstration which the events do not fit.
pub open spec fn fire_failure() -> (FireStateView, EffectView) {
    (FireStateView::Finished, EffectView::Respond(bare(500)))
}

/// The step that turns to registration number `next`: its payload is to be
/// serialized, or, where no registration is left, the request is answered
/// with 200.
pub open spec fn fire_next(registrations: Seq<RegistrationView>, next: int) -> (
    FireStateView,
    EffectView,
) {
    if 0 <= next < registrations.len() {
        (
            FireStateView::Encoding { registrations, next },
            EffectView::Encode(sample_payload_for(registrations[next])),
        )
    } else {
        (FireStateView::Finished, EffectView::Respond(bare(200)))
    }
}

/// One step of the demonstration endpoint. It reads the registration set
/// and takes the registrations in their order: for each, a sample payload is
/// serialized, signed with the registration's key and sent. How a delivery
/// ended does not enter into what follows it: the next registration is
/// tried all the same, and the answer is 200 once each has had its one
/// attempt. Only a store that failed gives 500. An event that does not fit
/// the state ends the request with 500.
pub open spec fn fire_step(state: FireStateView, event: EventView) -> (FireStateView, EffectView) {
    match (state, event) {
        (FireStateView::Idle, EventView::Invoked) => (
            FireStateView::Reading,
            EffectView::Store(StoreRequestView::Read),
        ),
        (FireStateView::Reading, EventView::Store(reply)) => match listing(reply) {
            Ok(list) => fire_next(list, 0),
            Err(error) => (FireStateView::Finished, EffectView::Respond(failure(error))),
        },
        (FireStateView::Encoding { registrations, next }, EventView::Encoded(bytes)) => {
            if 0 <= next < registrations.len() {
                (
                    FireStateView::Delivering { registrations, next },
                    EffectView::Deliver(signed_request_for(registrations[next], bytes)),
                )
            } else {
                fire_failure()
            }
        },
        (FireStateView::Delivering { registrations, next }, EventView::Delivered(_)) => {
            if 0 <= next < registrations.len() {
                fire_next(registrations, next + 1)
            } else {
                fire_failure()
            }
        },
        _ => fire_failure(),
    }
}

/// Turns to registration number `next`: see `fire_next`.
fn turn_to(registrations: Vec<Registration>, next: usize) -> (step: (FireState, Effect))
    ensures
        (step.0@, step.1@) == fire_next(registrations.deep_view(), next as int),
{
    if next < registrations.len() {
        let payload = SamplePayload::for_registration(&registrations[next]);
        (FireState::Encoding { registrations, next }, Effect::Encode(payload))
    } else {
        (FireState::Finished, Effect::Respond(Response::new(200)))
    }
}

/// One step of the demonstration endpoint: see `fire_step`. A state that
/// points outside its list is not reached from `Idle`; it ends the request
/// with 500.
pub fn demonstrate_fire_webhook(state: FireState, event: Event) -> (step: (FireState, Effect))
    ensures
        (step.0@, step.1@) == fire_step(state@, event@),
        step.0@.well_formed(),
{
    match (state, event) {
        (FireState::Idle, Event::Invoked) => (FireState::Reading, Effect::Store(StoreRequest::Read)),
        (FireState::Reading, Event::Store(reply)) => match RegistrationService::get_all(reply) {
            Ok(list) => turn_to(list, 0),
            Err(error) => (FireState::Finished, Effect::Respond(Response::failed(error))),
        },
        (FireState::Encoding { registrations, next }, Event::Encoded(bytes)) => {
            if next < registrations.len() {
                let request = fire(registrations[next].clone(), bytes);
                (FireState::Delivering { registrations, next }, Effect::Deliver(request))
            } else {
                (FireState::Finished, Effect::Respond(Response::new(500)))
            }
        },
        (FireState::Delivering { registrations, next }, Event::Delivered(_)) => {
            if next < registrations.len() {
                turn_to(registrations, next + 1)
            } else {
                (FireState::Finished, Effect::Respond(Response::new(500)))
            }
        },
        _ => (FireState::Finished, Effect::Respond(Response::new(500))),
    }
}

} // verus!
