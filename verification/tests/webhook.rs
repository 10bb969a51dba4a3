use signed_webhooks::error::{require_parsed, WebhookError};
use signed_webhooks::registrations::Registration;
use signed_webhooks::response::{Response, ResponseBody};
use signed_webhooks::signing::verify;
use signed_webhooks::webhook::{delivery_outcome, fire, SignedRequest, SIGNATURE_HEADER};

fn subscriber() -> Registration {
    Registration {
        url: "https://sub.example/target".to_string(),
        event: "order.created".to_string(),
        signing_key: "hello".to_string(),
    }
}

#[test]
fn fire_signs_the_payload_with_the_registration_key() {
    let request = fire(subscriber(), b"world".to_vec());
    assert_eq!(
        request,
        SignedRequest {
            url: "https://sub.example/target".to_string(),
            signature: b"f1ac9702eb5faf23ca291a4dc46deddeee2a78ccdaf0a412bed7714cfffb1cc4"
                .to_vec(),
            body: b"world".to_vec(),
        }
    );
}

#[test]
fn fire_signature_verifies_under_the_key_bytes() {
    let mut registration = subscriber();
    registration.signing_key = "6f1c0c58-0f4e-4b1e-9d0c-5a0a6c3f2b11".to_string();
    let body = b"{\"event\":\"order.created\",\"data\":\"https://sub.example/target\"}".to_vec();
    let request = fire(registration.clone(), body.clone());
    assert_eq!(request.body, body);
    assert!(verify(&body, registration.signing_key.as_bytes(), &request.signature));
    assert!(!verify(&body, b"another key", &request.signature));
}

#[test]
fn fire_uses_all_bytes_of_a_key_that_is_not_ascii() {
    let mut registration = subscriber();
    registration.signing_key = "schl\u{fc}ssel".to_string();
    let request = fire(registration, b"world".to_vec());
    assert!(verify(b"world", "schl\u{fc}ssel".as_bytes(), &request.signature));
    assert!(!verify(b"world", b"schlussel", &request.signature));
}

#[test]
fn signature_header_name() {
    assert_eq!(SIGNATURE_HEADER, "X-Signature");
}

#[test]
fn delivery_succeeds_on_every_2xx() {
    for status in [200, 201, 202, 204, 250, 298, 299] {
        assert_eq!(delivery_outcome(Some(status)), Ok(()));
    }
}

#[test]
fn delivery_fails_on_everything_else() {
    for status in [0, 100, 199, 300, 301, 400, 404, 500, 503, u16::MAX] {
        assert_eq!(delivery_outcome(Some(status)), Err(WebhookError::DeliveryFailed));
    }
    assert_eq!(delivery_outcome(None), Err(WebhookError::DeliveryFailed));
}

#[test]
fn error_statuses() {
    assert_eq!(WebhookError::Payload.status(), 400);
    assert_eq!(WebhookError::Storage.status(), 500);
    assert_eq!(WebhookError::HandshakeRejected.status(), 500);
    assert_eq!(WebhookError::VerificationFailed.status(), 500);
    assert_eq!(WebhookError::DeliveryFailed.status(), 500);
}

#[test]
fn unparsed_body_is_a_payload_error() {
    assert_eq!(require_parsed::<u8>(None), Err(WebhookError::Payload));
    assert_eq!(require_parsed(Some(7u8)), Ok(7));
}

#[test]
fn responses_without_body() {
    assert_eq!(Response::new(204), Response { status: 204, body: ResponseBody::Empty });
    assert_eq!(
        Response::failed(WebhookError::Payload),
        Response { status: 400, body: ResponseBody::Empty }
    );
    for error in [
        WebhookError::Storage,
        WebhookError::HandshakeRejected,
        WebhookError::VerificationFailed,
        WebhookError::DeliveryFailed,
    ] {
        assert_eq!(Response::failed(error), Response { status: 500, body: ResponseBody::Empty });
    }
}
