use daas_bot::server::error::ServerError;
use daas_bot::server::route::{Route, Subcommand};
use daas_bot::server::validate::{
    handle_request, parse_interaction, public_key_verifier, PublicKey, XSignatureEd25519,
    XSignatureTimestamp,
};
use ed25519_dalek::{Signer, SigningKey};

const TIMESTAMP: &str = "1700000000";

fn signing_key() -> SigningKey {
    SigningKey::from_bytes(&[7u8; 32])
}

fn public_key() -> PublicKey {
    let hex_key = hex::encode(signing_key().verifying_key().to_bytes());
    public_key_verifier(&hex_key).ok().unwrap()
}

fn sign(body: &[u8]) -> (XSignatureEd25519, XSignatureTimestamp) {
    let message = [TIMESTAMP.as_bytes(), body].concat();
    let signature = signing_key().sign(&message);
    (
        XSignatureEd25519(hex::encode(signature.to_bytes())),
        XSignatureTimestamp(TIMESTAMP.to_string()),
    )
}

const PING: &[u8] = br#"{"id":"1","application_id":"2","type":1,"token":"t","version":1}"#;

fn command(option: &str) -> Vec<u8> {
    format!(
        r#"{{"id":"1","application_id":"2","type":2,"data":{{"id":"3","name":"daas","type":1,"options":[{{"name":"{option}","type":1,"options":[]}}]}},"channel_id":"4","token":"t","version":1,"locale":"en-US","entitlements":[],"attachment_size_limit":8}}"#
    )
    .into_bytes()
}

#[test]
fn command_bodies_are_interactions() {
    assert!(parse_interaction(&command("export")).is_ok());
}

#[test]
fn signed_ping_is_routed_to_pong() {
    let key = public_key();
    let (sig, ts) = sign(PING);
    match handle_request(&key, Some(&sig), Some(&ts), PING) {
        Ok((_, route)) => assert_eq!(route, Route::Ping),
        Err(_) => panic!("a signed ping must be accepted"),
    }
}

#[test]
fn signed_commands_are_routed_by_their_first_option() {
    let key = public_key();
    for (name, sub) in [
        ("enable", Subcommand::Enable),
        ("disable", Subcommand::Disable),
        ("export", Subcommand::Export),
        ("cleanup", Subcommand::Cleanup),
        ("help", Subcommand::Help),
    ] {
        let body = command(name);
        let (sig, ts) = sign(&body);
        match handle_request(&key, Some(&sig), Some(&ts), &body) {
            Ok((_, route)) => assert_eq!(route, Route::Command(sub)),
            Err(_) => panic!("a signed command must be accepted"),
        }
    }
    let body = command("frobnicate");
    let (sig, ts) = sign(&body);
    assert!(matches!(
        handle_request(&key, Some(&sig), Some(&ts), &body),
        Err(ServerError::UnknownCommand)
    ));
}

#[test]
fn a_signature_covers_timestamp_and_body() {
    let key = public_key();
    let (sig, ts) = sign(PING);
    let other_body = command("help");
    assert!(matches!(
        handle_request(&key, Some(&sig), Some(&ts), &other_body),
        Err(ServerError::Validation)
    ));
    let other_ts = XSignatureTimestamp("1700000001".to_string());
    assert!(matches!(
        handle_request(&key, Some(&sig), Some(&other_ts), PING),
        Err(ServerError::Validation)
    ));
    assert!(matches!(handle_request(&key, Some(&sig), None, PING), Err(ServerError::Validation)));
}

#[test]
fn signed_garbage_is_malformed_input() {
    let key = public_key();
    let body = b"not json";
    let (sig, ts) = sign(body);
    match handle_request(&key, Some(&sig), Some(&ts), body) {
        Err(ServerError::MalformedInput(w)) => assert_eq!(w, "failed to deserialize interaction"),
        _ => panic!("signed garbage must be refused as malformed"),
    }
}
