//! Access-credential construction, signed by the real token library.

use room_bridge::state::FailureReason;
use room_bridge::token::{build_access_credential, credential_outcome, standard_grants};

#[test]
fn empty_keys_are_a_signing_failure() {
    let r = build_access_credential("", "secret", "room-A".to_owned(), "alice".to_owned(), true);
    assert_eq!(r, Err(FailureReason::CredentialSigning));
    let r = build_access_credential("key", "", "room-A".to_owned(), "alice".to_owned(), true);
    assert_eq!(r, Err(FailureReason::CredentialSigning));
}

#[test]
fn empty_identity_or_room_is_a_signing_failure() {
    let r = build_access_credential("key", "secret", "room-A".to_owned(), "".to_owned(), true);
    assert_eq!(r, Err(FailureReason::CredentialSigning));
    let r = build_access_credential("key", "secret", "".to_owned(), "alice".to_owned(), true);
    assert_eq!(r, Err(FailureReason::CredentialSigning));
}

#[test]
fn valid_inputs_yield_a_signed_token() {
    let r = build_access_credential(
        "devkey",
        "devsecret-devsecret-devsecret-devsecret",
        "room-A".to_owned(),
        "alice".to_owned(),
        true,
    );
    let token = r.expect("signing succeeds with a full key pair");
    // A JSON web token has three dot-separated segments.
    assert_eq!(token.matches('.').count(), 2);
}

#[test]
fn standard_grants_carry_full_rights() {
    let g = standard_grants("room-A".to_owned(), "alice".to_owned(), false);
    assert_eq!(g.room_id, "room-A");
    assert_eq!(g.identity, "alice");
    assert!(g.room_join);
    assert!(!g.room_admin);
    assert!(g.can_publish);
    assert!(g.can_publish_data);
    assert!(g.can_subscribe);
    assert!(g.can_update_own_metadata);
}

#[test]
fn outcome_mapping_is_exact() {
    assert_eq!(credential_outcome(Some("token".to_owned())), Ok("token".to_owned()));
    assert_eq!(
        credential_outcome(None),
        Err(FailureReason::CredentialSigning)
    );
}

#[test]
fn management_url_rewrites_the_websocket_scheme() {
    assert_eq!(
        room_bridge::config::https_url_of("wss://example.test"),
        "https://example.test"
    );
    assert_eq!(
        room_bridge::config::https_url_of("ws://example.test"),
        "ws://example.test"
    );
    assert_eq!(
        room_bridge::config::https_url_of("https://example.test"),
        "https://example.test"
    );
    // Every occurrence is rewritten once the scheme matches.
    assert_eq!(
        room_bridge::config::https_url_of("wss://wss.example"),
        "https://https.example"
    );
    assert_eq!(room_bridge::config::https_url_of(""), "");
}
