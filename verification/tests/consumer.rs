use signed_webhooks::consumer::{
    check_delivery, contains_bytes, handle_hanshake, handle_invocation,
    handle_webhook_invocation, is_handshake, ConsumerEffect, ConsumerEvent, ConsumerState,
    Inbound, KeyRead, SIGNING_KEY_SLOT,
};
use signed_webhooks::error::WebhookError;
use signed_webhooks::models::HandshakeRequestModel;
use signed_webhooks::response::Response;
use signed_webhooks::signing::sign;

fn respond(status: u16) -> ConsumerEffect {
    ConsumerEffect::Respond(Response::new(status))
}

fn delivery(body: &[u8], signature: Option<&[u8]>) -> Inbound {
    Inbound {
        query: String::new(),
        signature: signature.map(|text| text.to_vec()),
        body: body.to_vec(),
    }
}

#[test]
fn contains_bytes_finds_a_needle_anywhere() {
    assert!(contains_bytes(b"abcabd", b"abd"));
    assert!(contains_bytes(b"abcabd", b"abc"));
    assert!(contains_bytes(b"abcabd", b"cab"));
    assert!(contains_bytes(b"abcabd", b"abcabd"));
    assert!(contains_bytes(b"aaab", b"aab"));
    assert!(contains_bytes(b"abc", b""));
    assert!(contains_bytes(b"", b""));
}

#[test]
fn contains_bytes_misses_what_is_not_there() {
    assert!(!contains_bytes(b"abcabd", b"abx"));
    assert!(!contains_bytes(b"abcabd", b"abcabdx"));
    assert!(!contains_bytes(b"abcabd", b"bda"));
    assert!(!contains_bytes(b"", b"a"));
    assert!(!contains_bytes(b"ab", b"abc"));
}

#[test]
fn handshake_is_marked_by_the_query_string() {
    assert!(is_handshake("handshake=true"));
    assert!(is_handshake("a=b&handshake=true"));
    assert!(is_handshake("handshake=true&a=b"));
    assert!(is_handshake("a=b?handshake=true"));
    assert!(is_handshake("xhandshake=truex"));
    assert!(is_handshake("\u{fc}&handshake=true"));
}

#[test]
fn other_query_strings_mark_a_delivery() {
    assert!(!is_handshake(""));
    assert!(!is_handshake("handshake"));
    assert!(!is_handshake("handshake=tru"));
    assert!(!is_handshake("handshake=false"));
    assert!(!is_handshake("Handshake=true"));
    assert!(!is_handshake("handshake=True"));
    assert!(!is_handshake("handshake =true"));
    assert!(!is_handshake("a=b"));
}

#[test]
fn key_slot_is_the_well_known_one() {
    assert_eq!(SIGNING_KEY_SLOT, "KEYS");
}

#[test]
fn delivery_with_the_right_signature_passes() {
    let signature = sign(b"world", b"hello");
    assert_eq!(
        check_delivery(&KeyRead::Present(b"hello".to_vec()), &Some(signature.clone()), &b"world".to_vec()),
        Ok(())
    );
    assert_eq!(
        handle_webhook_invocation(
            &KeyRead::Present(b"hello".to_vec()),
            &Some(signature),
            &b"world".to_vec()
        ),
        Response::new(200)
    );
}

#[test]
fn delivery_without_a_stored_key_fails_verification() {
    let signature = sign(b"world", b"hello");
    assert_eq!(
        check_delivery(&KeyRead::Absent, &Some(signature.clone()), &b"world".to_vec()),
        Err(WebhookError::VerificationFailed)
    );
    assert_eq!(
        handle_webhook_invocation(&KeyRead::Absent, &Some(signature), &b"world".to_vec()),
        Response::new(500)
    );
}

#[test]
fn delivery_with_an_unreadable_store_is_a_storage_error() {
    let signature = sign(b"world", b"hello");
    assert_eq!(
        check_delivery(&KeyRead::Failed, &Some(signature.clone()), &b"world".to_vec()),
        Err(WebhookError::Storage)
    );
    assert_eq!(
        handle_webhook_invocation(&KeyRead::Failed, &Some(signature), &b"world".to_vec()),
        Response::new(500)
    );
}

#[test]
fn delivery_without_a_signature_header_fails_verification() {
    assert_eq!(
        check_delivery(&KeyRead::Present(b"hello".to_vec()), &None, &b"world".to_vec()),
        Err(WebhookError::VerificationFailed)
    );
    assert_eq!(
        handle_webhook_invocation(&KeyRead::Present(b"hello".to_vec()), &None, &b"world".to_vec()),
        Response::new(500)
    );
}

#[test]
fn delivery_with_a_wrong_or_malformed_signature_fails_verification() {
    let key = KeyRead::Present(b"hello".to_vec());
    let body = b"world".to_vec();
    for signature in [
        sign(b"world", b"other key"),
        sign(b"another body", b"hello"),
        b"abc".to_vec(),
        b"not hex".to_vec(),
        Vec::new(),
    ] {
        assert_eq!(
            check_delivery(&key, &Some(signature.clone()), &body),
            Err(WebhookError::VerificationFailed)
        );
        assert_eq!(handle_webhook_invocation(&key, &Some(signature), &body), Response::new(500));
    }
}

#[test]
fn handshake_request_is_sent_to_parsing() {
    let inbound = Inbound {
        query: "handshake=true".to_string(),
        signature: None,
        body: b"{\"keyData\":\"k\"}".to_vec(),
    };
    assert_eq!(
        handle_invocation(ConsumerState::Idle, ConsumerEvent::Arrived(inbound)),
        (ConsumerState::Parsing, ConsumerEffect::ParseHandshake)
    );
}

#[test]
fn handshake_with_a_key_stores_its_bytes() {
    let parsed = ConsumerEvent::Parsed(Some(HandshakeRequestModel {
        key_data: "6f1c0c58-0f4e".to_string(),
    }));
    assert_eq!(
        handle_invocation(ConsumerState::Parsing, parsed),
        (ConsumerState::Storing, ConsumerEffect::StoreKey(b"6f1c0c58-0f4e".to_vec()))
    );
    let parsed = ConsumerEvent::Parsed(Some(HandshakeRequestModel {
        key_data: "schl\u{fc}ssel".to_string(),
    }));
    assert_eq!(
        handle_hanshake(ConsumerState::Parsing, parsed),
        (
            ConsumerState::Storing,
            ConsumerEffect::StoreKey(vec![115, 99, 104, 108, 0xc3, 0xbc, 115, 115, 101, 108])
        )
    );
}

#[test]
fn handshake_with_an_unparsed_body_is_answered_400() {
    assert_eq!(
        handle_invocation(ConsumerState::Parsing, ConsumerEvent::Parsed(None)),
        (ConsumerState::Finished, respond(400))
    );
    assert_eq!(
        handle_hanshake(ConsumerState::Parsing, ConsumerEvent::Parsed(None)),
        (ConsumerState::Finished, respond(400))
    );
}

#[test]
fn handshake_is_answered_once_the_key_is_kept() {
    assert_eq!(
        handle_invocation(ConsumerState::Storing, ConsumerEvent::KeyStored(true)),
        (ConsumerState::Finished, respond(200))
    );
    assert_eq!(
        handle_invocation(ConsumerState::Storing, ConsumerEvent::KeyStored(false)),
        (ConsumerState::Finished, respond(500))
    );
}

#[test]
fn delivery_request_loads_the_key_first() {
    let signature = sign(b"world", b"hello");
    let inbound = delivery(b"world", Some(&signature));
    assert_eq!(
        handle_invocation(ConsumerState::Idle, ConsumerEvent::Arrived(inbound)),
        (
            ConsumerState::Loading { signature: Some(signature), body: b"world".to_vec() },
            ConsumerEffect::LoadKey
        )
    );
}

#[test]
fn delivery_is_answered_from_the_loaded_key() {
    let signature = sign(b"world", b"hello");
    let loading =
        || ConsumerState::Loading { signature: Some(signature.clone()), body: b"world".to_vec() };
    assert_eq!(
        handle_invocation(loading(), ConsumerEvent::KeyLoaded(KeyRead::Present(b"hello".to_vec()))),
        (ConsumerState::Finished, respond(200))
    );
    assert_eq!(
        handle_invocation(loading(), ConsumerEvent::KeyLoaded(KeyRead::Present(b"hellp".to_vec()))),
        (ConsumerState::Finished, respond(500))
    );
    assert_eq!(
        handle_invocation(loading(), ConsumerEvent::KeyLoaded(KeyRead::Absent)),
        (ConsumerState::Finished, respond(500))
    );
    assert_eq!(
        handle_invocation(loading(), ConsumerEvent::KeyLoaded(KeyRead::Failed)),
        (ConsumerState::Finished, respond(500))
    );
}

#[test]
fn events_out_of_turn_end_the_request() {
    assert_eq!(
        handle_invocation(ConsumerState::Idle, ConsumerEvent::KeyStored(true)),
        (ConsumerState::Finished, respond(500))
    );
    assert_eq!(
        handle_invocation(ConsumerState::Parsing, ConsumerEvent::KeyStored(true)),
        (ConsumerState::Finished, respond(500))
    );
    assert_eq!(
        handle_invocation(ConsumerState::Storing, ConsumerEvent::Parsed(None)),
        (ConsumerState::Finished, respond(500))
    );
    assert_eq!(
        handle_invocation(
            ConsumerState::Loading { signature: None, body: Vec::new() },
            ConsumerEvent::KeyStored(true)
        ),
        (ConsumerState::Finished, respond(500))
    );
    assert_eq!(
        handle_invocation(ConsumerState::Finished, ConsumerEvent::Arrived(delivery(b"", None))),
        (ConsumerState::Finished, respond(500))
    );
    assert_eq!(
        handle_hanshake(ConsumerState::Idle, ConsumerEvent::Parsed(None)),
        (ConsumerState::Finished, respond(500))
    );
}
