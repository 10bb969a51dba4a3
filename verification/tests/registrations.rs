use signed_webhooks::error::WebhookError;
use signed_webhooks::models::{RegistrationResponseModel, SamplePayload};
use signed_webhooks::registrations::{
    Registration, RegistrationService, StoreReply, REGISTRATIONS_KEY, SIGNING_KEY_LEN,
};

fn registration(url: &str, event: &str, signing_key: &str) -> Registration {
    Registration {
        url: url.to_string(),
        event: event.to_string(),
        signing_key: signing_key.to_string(),
    }
}

#[test]
fn new_registration_keeps_url_and_event_and_draws_a_key() {
    let made = Registration::new(
        "https://sub.example/target".to_string(),
        "order.created".to_string(),
    );
    assert_eq!(made.url, "https://sub.example/target");
    assert_eq!(made.event, "order.created");
    assert!(!made.signing_key.is_empty());
    assert_eq!(made.signing_key.chars().count(), SIGNING_KEY_LEN);
    assert_eq!(SIGNING_KEY_LEN, 36);
}

#[test]
fn signing_key_is_a_hyphenated_random_identifier() {
    let key = Registration::new(String::new(), String::new()).signing_key;
    let bytes = key.as_bytes();
    assert_eq!(bytes.len(), 36);
    for (at, byte) in bytes.iter().enumerate() {
        if at == 8 || at == 13 || at == 18 || at == 23 {
            assert_eq!(*byte, b'-');
        } else {
            assert!(byte.is_ascii_digit() || (b'a'..=b'f').contains(byte));
        }
    }
    // the version of a random identifier
    assert_eq!(bytes[14], b'4');
}

#[test]
fn two_registrations_draw_different_keys() {
    let first = Registration::new("https://a.example".to_string(), "e".to_string());
    let second = Registration::new("https://a.example".to_string(), "e".to_string());
    assert_ne!(first.signing_key, second.signing_key);
}

#[test]
fn registration_with_a_given_key() {
    let made = Registration::with_signing_key(
        "https://sub.example/target".to_string(),
        "order.created".to_string(),
        "k-1".to_string(),
    );
    assert_eq!(made, registration("https://sub.example/target", "order.created", "k-1"));
}

#[test]
fn registration_clone_is_equal() {
    let made = registration("https://sub.example/target", "order.created", "k-1");
    assert_eq!(made.clone(), made);
}

#[test]
fn registrations_key_is_the_well_known_one() {
    assert_eq!(REGISTRATIONS_KEY, "ALL_REGISTRATIONS");
}

#[test]
fn handshake_url_has_the_marker_behind_the_url() {
    assert_eq!(
        RegistrationService::create_handshake_url(&"https://sub.example/target".to_string()),
        "https://sub.example/target?handshake=true"
    );
    assert_eq!(RegistrationService::create_handshake_url(&String::new()), "?handshake=true");
    assert_eq!(
        RegistrationService::create_handshake_url(&"http://h/p?a=b".to_string()),
        "http://h/p?a=b?handshake=true"
    );
}

#[test]
fn handshake_request_offers_the_key_at_the_marked_url() {
    let made = registration("https://sub.example/target", "order.created", "the-key");
    let call = RegistrationService::handshake_request(&made);
    assert_eq!(call.url, "https://sub.example/target?handshake=true");
    assert_eq!(call.payload.key_data, "the-key");
}

#[test]
fn handshake_is_accepted_by_status_200_alone() {
    assert_eq!(RegistrationService::verify_registration_attempt(Some(200)), Ok(()));
    for status in [100, 199, 201, 202, 204, 299, 301, 400, 404, 500, 503] {
        assert_eq!(
            RegistrationService::verify_registration_attempt(Some(status)),
            Err(WebhookError::HandshakeRejected)
        );
    }
    assert_eq!(
        RegistrationService::verify_registration_attempt(None),
        Err(WebhookError::HandshakeRejected)
    );
}

#[test]
fn get_all_of_nothing_stored_is_empty() {
    assert_eq!(RegistrationService::get_all(StoreReply::Stored(None)), Ok(vec![]));
}

#[test]
fn get_all_gives_what_is_stored_in_its_order() {
    let stored = vec![
        registration("https://a.example", "one", "k-a"),
        registration("https://b.example", "two", "k-b"),
    ];
    assert_eq!(
        RegistrationService::get_all(StoreReply::Stored(Some(stored.clone()))),
        Ok(stored)
    );
}

#[test]
fn get_all_of_a_failed_store_is_a_storage_error() {
    assert_eq!(RegistrationService::get_all(StoreReply::Failed), Err(WebhookError::Storage));
    assert_eq!(RegistrationService::get_all(StoreReply::Done), Err(WebhookError::Storage));
    assert_eq!(
        RegistrationService::get_all(StoreReply::Present(true)),
        Err(WebhookError::Storage)
    );
}

#[test]
fn add_appends_to_what_is_stored() {
    let first = registration("https://a.example", "one", "k-a");
    let second = registration("https://b.example", "two", "k-b");
    assert_eq!(
        RegistrationService::add(StoreReply::Stored(None), &first),
        Ok(vec![first.clone()])
    );
    assert_eq!(
        RegistrationService::add(StoreReply::Stored(Some(vec![first.clone()])), &second),
        Ok(vec![first, second])
    );
}

#[test]
fn add_keeps_duplicates() {
    let first = registration("https://a.example", "one", "k-a");
    let again = registration("https://a.example", "one", "k-b");
    assert_eq!(
        RegistrationService::add(StoreReply::Stored(Some(vec![first.clone()])), &first),
        Ok(vec![first.clone(), first.clone()])
    );
    assert_eq!(
        RegistrationService::add(StoreReply::Stored(Some(vec![first.clone()])), &again),
        Ok(vec![first, again])
    );
}

#[test]
fn add_after_a_failed_read_is_a_storage_error() {
    let first = registration("https://a.example", "one", "k-a");
    assert_eq!(RegistrationService::add(StoreReply::Failed, &first), Err(WebhookError::Storage));
}

#[test]
fn truncate_removes_only_what_is_stored() {
    assert_eq!(RegistrationService::truncate(StoreReply::Present(true)), Ok(true));
    assert_eq!(RegistrationService::truncate(StoreReply::Present(false)), Ok(false));
    assert_eq!(RegistrationService::truncate(StoreReply::Failed), Err(WebhookError::Storage));
    assert_eq!(
        RegistrationService::truncate(StoreReply::Stored(None)),
        Err(WebhookError::Storage)
    );
}

#[test]
fn acknowledge_takes_done_alone() {
    assert_eq!(RegistrationService::acknowledge(StoreReply::Done), Ok(()));
    assert_eq!(RegistrationService::acknowledge(StoreReply::Failed), Err(WebhookError::Storage));
    assert_eq!(
        RegistrationService::acknowledge(StoreReply::Present(true)),
        Err(WebhookError::Storage)
    );
}

#[test]
fn response_model_carries_the_signing_key() {
    let made = registration("https://a.example", "one", "k-a");
    assert_eq!(
        RegistrationResponseModel::from(made),
        RegistrationResponseModel { signing_key: "k-a".to_string() }
    );
}

#[test]
fn sample_payload_names_event_and_url() {
    let made = registration("https://a.example", "one", "k-a");
    assert_eq!(
        SamplePayload::for_registration(&made),
        SamplePayload { event: "one".to_string(), data: "https://a.example".to_string() }
    );
}
