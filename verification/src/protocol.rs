//! What holds of the endpoints of producer and subscriber when they are run
//! to their answer against a store that does what it is asked.

use crate::consumer::{
    consumer_step, handshake_marker, marks_handshake, occurs_at, ConsumerEffectView,
    ConsumerEventView, ConsumerStateView, InboundView, KeyReadView,
};
use crate::handlers::{
    dump_step, fire_step, invalid_payload, register_step, registrations_response,
    signing_key_response, truncate_step, DumpState, EffectView, EventView, FireStateView,
    RegisterStateView, TruncateState,
};
use crate::models::{sample_payload_for, RegistrationRequestView, SamplePayloadView};
use crate::registrations::{
    appended, handshake_request_for, handshake_url, listed, store_after, store_reply,
    RegistrationView, StoreRequestView, SIGNING_KEY_LEN,
};
use crate::response::{bare, ResponseView};
use crate::signing::{hmac_sha256, lemma_sign_then_verify, lemma_signature_binds_data, signature_of};
use crate::webhook::{signed_request_for, SignedRequestView};
use vstd::prelude::*;
use vstd::string::*;
use vstd::utf8::encode_utf8;

verus! {

/// What the producer's endpoints meet outside themselves, but for the
/// store: how the subscriber answers, and how a payload is serialized.
pub struct World {
    /// How every handshake call ends: with this status, or with none where
    /// the call fails or times out.
    pub handshake: Option<u16>,
    /// The bytes that a payload is serialized to.
    pub encode: spec_fn(SamplePayloadView) -> Seq<u8>,
    /// How a delivery ends: with a status, or with none where the call fails
    /// or times out.
    pub answer: spec_fn(SignedRequestView) -> Option<u16>,
}

/// How a run ended: what the store holds, the deliveries that were sent, in
/// their order, and the answer, if the run came to one.
pub struct Outcome {
    pub persisted: Option<Seq<RegistrationView>>,
    pub sent: Seq<SignedRequestView>,
    pub response: Option<ResponseView>,
}

/// Runs an endpoint from `state` and `event` on, for at most `steps` steps.
/// Each request to the store is answered by a store that holds `persisted`
/// and does not fail; calls and payloads go as `world` says. A run that needs
/// more steps has no answer.
pub open spec fn run<S>(
    step: spec_fn(S, EventView) -> (S, EffectView),
    state: S,
    event: EventView,
    world: World,
    persisted: Option<Seq<RegistrationView>>,
    sent: Seq<SignedRequestView>,
    steps: nat,
) -> Outcome
    decreases steps,
{
    if steps == 0 {
        Outcome { persisted, sent, response: None }
    } else {
        let (next, effect) = step(state, event);
        let left = (steps - 1) as nat;
        match effect {
            EffectView::Respond(response) => Outcome { persisted, sent, response: Some(response) },
            EffectView::Store(request) => run(
                step,
                next,
                EventView::Store(store_reply(persisted, request)),
                world,
                store_after(persisted, request),
                sent,
                left,
            ),
            EffectView::Handshake(_) => run(
                step,
                next,
                EventView::Handshake(world.handshake),
                world,
                persisted,
                sent,
                left,
            ),
            EffectView::Encode(payload) => run(
                step,
                next,
                EventView::Encoded((world.encode)(payload)),
                world,
                persisted,
                sent,
                left,
            ),
            EffectView::Deliver(request) => run(
                step,
                next,
                EventView::Delivered((world.answer)(request)),
                world,
                persisted,
                sent.push(request),
                left,
            ),
        }
    }
}

/// The number of steps that every run ends within which sends no delivery.
pub open spec fn enough() -> nat {
    8
}

/// A request to register, run to its answer, where `signing_key` is the key
/// that is drawn.
pub open spec fn registering(
    world: World,
    persisted: Option<Seq<RegistrationView>>,
    request: Option<RegistrationRequestView>,
    signing_key: Seq<char>,
) -> Outcome {
    run(
        |state: RegisterStateView, event: EventView| register_step(state, event, signing_key),
        RegisterStateView::Idle,
        EventView::Request(request),
        world,
        persisted,
        Seq::empty(),
        enough(),
    )
}

/// A request to list the registrations, run to its answer.
pub open spec fn listing_all(world: World, persisted: Option<Seq<RegistrationView>>) -> Outcome {
    run(
        |state: DumpState, event: EventView| dump_step(state, event),
        DumpState::Idle,
        EventView::Invoked,
        world,
        persisted,
        Seq::empty(),
        enough(),
    )
}

/// A request to remove all registrations, run to its answer.
pub open spec fn truncating(world: World, persisted: Option<Seq<RegistrationView>>) -> Outcome {
    run(
        |state: TruncateState, event: EventView| truncate_step(state, event),
        TruncateState::Idle,
        EventView::Invoked,
        world,
        persisted,
        Seq::empty(),
        enough(),
    )
}

/// A request to fire the demonstration, run for at most `steps` steps.
pub open spec fn firing(
    world: World,
    persisted: Option<Seq<RegistrationView>>,
    steps: nat,
) -> Outcome {
    run(
        |state: FireStateView, event: EventView| fire_step(state, event),
        FireStateView::Idle,
        EventView::Invoked,
        world,
        persisted,
        Seq::empty(),
        steps,
    )
}

/// The deliveries that the demonstration owes to a list of registrations:
/// one for each, in their order, with the sample payload as `world`
/// serializes it.
pub open spec fn deliveries_owed(world: World, list: Seq<RegistrationView>) -> Seq<
    SignedRequestView,
> {
    Seq::new(
        list.len(),
        |i: int| signed_request_for(list[i], (world.encode)(sample_payload_for(list[i]))),
    )
}

/// Listing answers 200 with what is stored, in its order, and leaves the
/// store as it was. Nothing stored lists as nothing.
pub proof fn lemma_listing_shows_what_is_stored(
    world: World,
    persisted: Option<Seq<RegistrationView>>,
)
    ensures
        listing_all(world, persisted).persisted == persisted,
        listing_all(world, persisted).response == Some(registrations_response(listed(persisted))),
{
    reveal_with_fuel(run, 3);
}

/// A registration whose handshake is answered with 200 is persisted, once,
/// behind what was stored before, with a signing key that is not empty. The
/// caller gets that key with status 200, and listing afterwards shows the
/// registration. On a store that held nothing it is the only one listed.
pub proof fn lemma_accepted_registration_is_listed(
    world: World,
    persisted: Option<Seq<RegistrationView>>,
    request: RegistrationRequestView,
    signing_key: Seq<char>,
)
    requires
        world.handshake == Some(200u16),
        signing_key.len() == SIGNING_KEY_LEN,
    ensures
        ({
            let registration = RegistrationView {
                url: request.url,
                event: request.event,
                signing_key,
            };
            let after = registering(world, persisted, Some(request), signing_key);
            &&& registration.signing_key.len() > 0
            &&& after.response == Some(signing_key_response(signing_key))
            &&& after.persisted == Some(listed(persisted).push(registration))
            &&& listing_all(world, after.persisted).response == Some(
                registrations_response(listed(persisted).push(registration)),
            )
            &&& persisted is None ==> listed(after.persisted) == seq![registration]
        }),
{
    reveal_with_fuel(run, 5);
    let registration = RegistrationView { url: request.url, event: request.event, signing_key };
    lemma_listing_shows_what_is_stored(world, Some(listed(persisted).push(registration)));
    assert(Seq::<RegistrationView>::empty().push(registration) =~= seq![registration]);
}

/// A registration whose handshake ends in anything but status 200 (another
/// status, a failed call, a timeout) is answered with 500 and leaves the
/// store as it was: listing afterwards shows what it showed before.
pub proof fn lemma_rejected_registration_is_not_persisted(
    world: World,
    persisted: Option<Seq<RegistrationView>>,
    request: RegistrationRequestView,
    signing_key: Seq<char>,
)
    requires
        world.handshake != Some(200u16),
    ensures
        registering(world, persisted, Some(request), signing_key).response == Some(bare(500)),
        registering(world, persisted, Some(request), signing_key).persisted == persisted,
        listing_all(world, registering(world, persisted, Some(request), signing_key).persisted)
            == listing_all(world, persisted),
{
    reveal_with_fuel(run, 3);
}

/// A request to register whose body does not parse is answered with 400;
/// no call is made for it and the store is left as it was.
pub proof fn lemma_unparsed_registration_is_refused(
    world: World,
    persisted: Option<Seq<RegistrationView>>,
    signing_key: Seq<char>,
)
    ensures
        registering(world, persisted, None, signing_key).response == Some(invalid_payload()),
        registering(world, persisted, None, signing_key).persisted == persisted,
{
    reveal_with_fuel(run, 2);
}

/// Removing all registrations answers 204 whatever was stored, also where
/// nothing was, and listing afterwards shows nothing.
pub proof fn lemma_truncate_leaves_nothing(world: World, persisted: Option<Seq<RegistrationView>>)
    ensures
        truncating(world, persisted).response == Some(bare(204)),
        truncating(world, persisted).persisted is None,
        listing_all(world, truncating(world, persisted).persisted).response == Some(
            registrations_response(Seq::empty()),
        ),
{
    reveal_with_fuel(run, 4);
    lemma_listing_shows_what_is_stored(world, None);
}

/// Two additions that both read the registration set before either writes
/// it back: what the first one wrote is overwritten, and only the second
/// registration is kept.
pub proof fn lemma_racing_additions_lose_one(
    persisted: Option<Seq<RegistrationView>>,
    first: RegistrationView,
    second: RegistrationView,
)
    ensures
        ({
            let read = store_reply(persisted, StoreRequestView::Read);
            let first_write = StoreRequestView::Write(appended(read, first).unwrap());
            let second_write = StoreRequestView::Write(appended(read, second).unwrap());
            let end = store_after(store_after(persisted, first_write), second_write);
            listed(end) == listed(persisted).push(second)
        }),
{
}

/// The demonstration, from the answer to the delivery to registration
/// number `at` on: the registrations behind it get their deliveries, and the
/// answer is 200, however the delivery ended.
proof fn lemma_firing_goes_on(
    world: World,
    persisted: Option<Seq<RegistrationView>>,
    list: Seq<RegistrationView>,
    at: int,
    status: Option<u16>,
    steps: nat,
)
    requires
        0 <= at < list.len(),
        steps >= 2 * (list.len() - 1 - at) + 1,
    ensures
        run(
            |state: FireStateView, event: EventView| fire_step(state, event),
            FireStateView::Delivering { registrations: list, next: at },
            EventView::Delivered(status),
            world,
            persisted,
            deliveries_owed(world, list).subrange(0, at + 1),
            steps,
        ) == (Outcome {
            persisted,
            sent: deliveries_owed(world, list),
            response: Some(bare(200)),
        }),
    decreases list.len() - at,
{
    let step = |state: FireStateView, event: EventView| fire_step(state, event);
    let owed = deliveries_owed(world, list);
    let sent = owed.subrange(0, at + 1);
    reveal_with_fuel(run, 3);
    if at + 1 < list.len() {
        let request = owed[at + 1];
        assert(sent.push(request) =~= owed.subrange(0, at + 2));
        lemma_firing_goes_on(
            world,
            persisted,
            list,
            at + 1,
            (world.answer)(request),
            (steps - 2) as nat,
        );
    } else {
        assert(sent =~= owed);
    }
}

/// The demonstration sends one delivery to each stored registration, in
/// their order, whatever the subscribers answer: a delivery that fails does
/// not keep the next from being sent. Its answer is 200, and the store is
/// left as it was.
pub proof fn lemma_every_registration_gets_one_attempt(
    world: World,
    persisted: Option<Seq<RegistrationView>>,
    steps: nat,
)
    requires
        steps >= 2 * listed(persisted).len() + 2,
    ensures
        firing(world, persisted, steps) == (Outcome {
            persisted,
            sent: deliveries_owed(world, listed(persisted)),
            response: Some(bare(200)),
        }),
{
    let list = listed(persisted);
    let owed = deliveries_owed(world, list);
    reveal_with_fuel(run, 4);
    if list.len() == 0 {
        assert(owed =~= Seq::empty());
    } else {
        let request = owed[0];
        assert(Seq::<SignedRequestView>::empty().push(request) =~= owed.subrange(0, 1));
        lemma_firing_goes_on(
            world,
            persisted,
            list,
            0,
            (world.answer)(request),
            (steps - 3) as nat,
        );
    }
}

/// How a run of the subscriber's endpoint ended: what the key slot holds,
/// and the answer, if the run came to one.
pub struct Served {
    pub slot: Option<Seq<u8>>,
    pub response: Option<ResponseView>,
}

/// What reading a key slot that holds `slot` gives, where the store does not
/// fail.
pub open spec fn slot_read(slot: Option<Seq<u8>>) -> KeyReadView {
    match slot {
        Some(key) => KeyReadView::Present(key),
        None => KeyReadView::Absent,
    }
}

/// Runs the subscriber's endpoint from `state` and `event` on, for at most
/// `steps` steps. The store keeps what it is given and does not fail, and the
/// body parses as `parsed` says.
pub open spec fn serve(
    state: ConsumerStateView,
    event: ConsumerEventView,
    parsed: Option<Seq<char>>,
    slot: Option<Seq<u8>>,
    steps: nat,
) -> Served
    decreases steps,
{
    if steps == 0 {
        Served { slot, response: None }
    } else {
        let (next, effect) = consumer_step(state, event);
        match effect {
            ConsumerEffectView::Respond(response) => Served { slot, response: Some(response) },
            ConsumerEffectView::ParseHandshake => serve(
                next,
                ConsumerEventView::Parsed(parsed),
                parsed,
                slot,
                (steps - 1) as nat,
            ),
            ConsumerEffectView::StoreKey(key) => serve(
                next,
                ConsumerEventView::KeyStored(true),
                parsed,
                Some(key),
                (steps - 1) as nat,
            ),
            ConsumerEffectView::LoadKey => serve(
                next,
                ConsumerEventView::KeyLoaded(slot_read(slot)),
                parsed,
                slot,
                (steps - 1) as nat,
            ),
        }
    }
}

/// A request to the subscriber's endpoint, run to its answer.
pub open spec fn receiving(
    slot: Option<Seq<u8>>,
    inbound: InboundView,
    parsed: Option<Seq<char>>,
) -> Served {
    serve(ConsumerStateView::Idle, ConsumerEventView::Arrived(inbound), parsed, slot, enough())
}

/// A handshake whose body parses is answered with 200 and leaves its key in
/// the slot, in place of whatever was there: the slot never holds more than
/// the key of the last handshake. One whose body does not parse is answered
/// with 400 and leaves the slot as it was.
pub proof fn lemma_handshake_keeps_the_last_key(
    slot: Option<Seq<u8>>,
    inbound: InboundView,
    parsed: Option<Seq<char>>,
)
    requires
        marks_handshake(encode_utf8(inbound.query)),
    ensures
        match parsed {
            Some(key_data) => receiving(slot, inbound, parsed) == (Served {
                slot: Some(encode_utf8(key_data)),
                response: Some(bare(200)),
            }),
            None => receiving(slot, inbound, parsed) == (Served {
                slot,
                response: Some(bare(400)),
            }),
        },
{
    reveal_with_fuel(serve, 4);
}

/// A delivery that reaches a subscriber which has not kept a key is answered
/// with 500, whatever it carries.
pub proof fn lemma_delivery_before_handshake_fails(inbound: InboundView, parsed: Option<Seq<char>>)
    requires
        !marks_handshake(encode_utf8(inbound.query)),
    ensures
        receiving(None, inbound, parsed) == (Served { slot: None, response: Some(bare(500)) }),
{
    reveal_with_fuel(serve, 3);
}

/// A delivery is answered with 200 exactly when a key is kept, a signature
/// came with it, and the signature verifies for the body under the key. It
/// leaves the slot as it was.
pub proof fn lemma_delivery_is_judged_by_signature(
    slot: Option<Seq<u8>>,
    inbound: InboundView,
    parsed: Option<Seq<char>>,
)
    requires
        !marks_handshake(encode_utf8(inbound.query)),
    ensures
        receiving(slot, inbound, parsed).slot == slot,
        receiving(slot, inbound, parsed).response == Some(
            crate::consumer::delivery_response(slot_read(slot), inbound.signature, inbound.body),
        ),
{
    reveal_with_fuel(serve, 3);
}

/// The round trip: once the subscriber has taken the handshake call that the
/// producer makes for a registration, it accepts every delivery that the
/// producer makes for that registration.
pub proof fn lemma_delivery_after_handshake_is_accepted(
    slot: Option<Seq<u8>>,
    registration: RegistrationView,
    payload: Seq<u8>,
    handshake_query: Seq<char>,
    delivery_query: Seq<char>,
)
    requires
        marks_handshake(encode_utf8(handshake_query)),
        !marks_handshake(encode_utf8(delivery_query)),
    ensures
        ({
            let call = handshake_request_for(registration);
            let first = InboundView { query: handshake_query, signature: None, body: Seq::empty() };
            let kept = receiving(slot, first, Some(call.key_data));
            let delivery = signed_request_for(registration, payload);
            let second = InboundView {
                query: delivery_query,
                signature: Some(delivery.signature),
                body: delivery.body,
            };
            &&& kept.response == Some(bare(200))
            &&& receiving(kept.slot, second, None).response == Some(bare(200))
        }),
{
    let call = handshake_request_for(registration);
    let first = InboundView { query: handshake_query, signature: None, body: Seq::empty() };
    lemma_handshake_keeps_the_last_key(slot, first, Some(call.key_data));
    let kept = receiving(slot, first, Some(call.key_data));
    let delivery = signed_request_for(registration, payload);
    let second = InboundView {
        query: delivery_query,
        signature: Some(delivery.signature),
        body: delivery.body,
    };
    lemma_delivery_is_judged_by_signature(kept.slot, second, None);
    lemma_sign_then_verify(payload, encode_utf8(registration.signing_key));
}

/// A delivery whose body is not the one that was signed is answered with
/// 200 only where both bodies have the same MAC under the kept key, and with
/// 500 otherwise.
pub proof fn lemma_tampered_delivery_is_refused(
    key: Seq<u8>,
    signed: Seq<u8>,
    received: Seq<u8>,
    query: Seq<char>,
)
    requires
        !marks_handshake(encode_utf8(query)),
    ensures
        ({
            let inbound = InboundView {
                query,
                signature: Some(signature_of(signed, key)),
                body: received,
            };
            let answer = receiving(Some(key), inbound, None).response;
            if hmac_sha256(key, received) == hmac_sha256(key, signed) {
                answer == Some(bare(200))
            } else {
                answer == Some(bare(500))
            }
        }),
{
    let inbound = InboundView { query, signature: Some(signature_of(signed, key)), body: received };
    lemma_delivery_is_judged_by_signature(Some(key), inbound, None);
    lemma_signature_binds_data(signed, received, key);
}

/// The bytes of two texts, one behind the other, are the bytes of the first
/// and then the bytes of the second.
pub proof fn lemma_bytes_of_concat(front: Seq<char>, back: Seq<char>)
    ensures
        encode_utf8(front + back) == encode_utf8(front) + encode_utf8(back),
    decreases front.len(),
{
    if front.len() == 0 {
        assert(front + back =~= back);
        assert(encode_utf8(front) + encode_utf8(back) =~= encode_utf8(back));
    } else {
        assert((front + back).drop_first() =~= front.drop_first() + back);
        lemma_bytes_of_concat(front.drop_first(), back);
        assert(encode_utf8(front + back) =~= encode_utf8(front) + encode_utf8(back));
    }
}

/// The subscriber takes the producer's handshake call for a handshake. The
/// query string of the call's target begins behind some `?` of it, and so no
/// later than behind the one that the producer wrote: every such query
/// string holds the marker.
pub proof fn lemma_handshake_call_is_recognised(url: Seq<char>, query_start: int)
    requires
        0 <= query_start <= encode_utf8(url).len() + 1,
    ensures
        encode_utf8(handshake_url(url)).len() == encode_utf8(url).len() + 15,
        marks_handshake(
            encode_utf8(handshake_url(url)).subrange(
                query_start,
                encode_utf8(handshake_url(url)).len() as int,
            ),
        ),
{
    let suffix = "?handshake=true"@;
    let marker = "handshake=true"@;
    reveal_strlit("?handshake=true");
    reveal_strlit("handshake=true");
    vstd::utf8::is_ascii_chars_encode_utf8(suffix);
    vstd::utf8::is_ascii_chars_encode_utf8(marker);
    lemma_bytes_of_concat(url, suffix);
    let target = encode_utf8(handshake_url(url));
    let front = encode_utf8(url).len() as int;
    let query = target.subrange(query_start, target.len() as int);
    let at = front + 1 - query_start;
    assert(query.subrange(at, at + 14) =~= handshake_marker()) by {
        assert forall|j: int| 0 <= j < 14 implies query.subrange(at, at + 14)[j]
            == handshake_marker()[j] by {
            assert(query.subrange(at, at + 14)[j] == encode_utf8(suffix)[j + 1]);
            assert(encode_utf8(suffix)[j + 1] == suffix[j + 1] as u8);
            assert(encode_utf8(marker)[j] == marker[j] as u8);
        }
    }
    assert(occurs_at(query, handshake_marker(), at));
}

} // verus!
