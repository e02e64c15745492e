//! Checking that a request comes from Discord, and reading the interaction it carries.
use vstd::prelude::*;
use serenity::all::Interaction;
use vstd::string::StringSliceAdditionalSpecFns;

use crate::server::error::ServerError;
use crate::server::key::{decode_key_spec, decode_public_key, HexError};
use crate::server::route::{names_text, route, route_of, InteractionKind, Route};

verus! {

#[verifier::external_type_specification]
#[verifier::external_body]
pub struct ExVerifier(serenity::all::Verifier);

#[verifier::external_type_specification]
#[verifier::external_body]
pub struct ExInvalidKey(serenity::all::InvalidKey);

#[verifier::external_type_specification]
#[verifier::external_body]
pub struct ExInteraction(serenity::all::Interaction);

#[verifier::external_type_specification]
#[verifier::external_body]
pub struct ExJsonError(serde_json::Error);

/// The name of the header carrying the request's signature.
pub const X_SIGNATURE_ED25519: &'static str = "x-signature-ed25519";

/// The name of the header carrying the request's timestamp.
pub const X_SIGNATURE_TIMESTAMP: &'static str = "x-signature-timestamp";

/// The value of the `X-Signature-Ed25519` request header.
pub struct XSignatureEd25519(pub String);

impl XSignatureEd25519 {
    /// The header's name.
    pub fn name() -> (n: &'static str)
        ensures
            n == X_SIGNATURE_ED25519,
    {
        X_SIGNATURE_ED25519
    }

    /// The header's value.
    pub fn as_str(&self) -> (s: &str)
        ensures
            s@ == self.0@,
    {
        self.0.as_str()
    }
}

/// The value of the `X-Signature-Timestamp` request header.
pub struct XSignatureTimestamp(pub String);

impl XSignatureTimestamp {
    /// The header's name.
    pub fn name() -> (n: &'static str)
        ensures
            n == X_SIGNATURE_TIMESTAMP,
    {
        X_SIGNATURE_TIMESTAMP
    }

    /// The header's value.
    pub fn as_str(&self) -> (s: &str)
        ensures
            s@ == self.0@,
    {
        self.0.as_str()
    }
}

/// Whether the 32 bytes `key` are a valid ed25519 public key (a point of the curve in
/// compressed form), as `ed25519_dalek::VerifyingKey::from_bytes` decides.
pub uninterp spec fn is_valid_public_key(key: Seq<u8>) -> bool;

/// Whether `signature`, as 128 hex digits, is a valid ed25519 signature by the public key `key`
/// of the bytes of `timestamp` followed by `body`, as `Verifier::verify` decides.
pub uninterp spec fn signature_valid(
    key: Seq<u8>,
    signature: Seq<char>,
    timestamp: Seq<char>,
    body: Seq<u8>,
) -> bool;

/// Whether `body` is the JSON of a Discord interaction, as `serde_json::from_slice` into a
/// `serenity::all::Interaction` decides.
pub uninterp spec fn is_interaction_json(body: Seq<u8>) -> bool;

/// What routing reads of the interaction whose JSON is `body`: its kind, and the names of its
/// command options in order (a command's or an autocomplete request's options; none for other
/// kinds).
pub uninterp spec fn interaction_route_facts(body: Seq<u8>) -> (InteractionKind, Seq<Seq<char>>);

/// `serenity::interactions_endpoint::Verifier::try_new`: a verifier for requests signed with the
/// key `public_key`. It succeeds exactly when the bytes are a valid public key; which keys
/// those are is left to [`is_valid_public_key`].
#[verifier::external_body]
fn verifier_try_new(public_key: [u8; 32]) -> (res: Result<
    serenity::all::Verifier,
    serenity::all::InvalidKey,
>)
    ensures
        res is Ok <==> is_valid_public_key(public_key@),
{
    serenity::all::Verifier::try_new(public_key)
}

/// The bot's public key: its 32 bytes and the verifier built from exactly those bytes. The
/// fields are private, and [`public_key_verifier`] is the only place that makes one.
pub struct PublicKey {
    bytes: [u8; 32],
    verifier: serenity::all::Verifier,
}

impl PublicKey {
    /// The key's bytes.
    pub closed spec fn key_bytes(&self) -> Seq<u8> {
        self.bytes@
    }

    /// The key's bytes.
    pub fn bytes(&self) -> (b: [u8; 32])
        ensures
            b@ == self.key_bytes(),
    {
        self.bytes
    }
}

/// `serenity::interactions_endpoint::Verifier::verify` with the verifier of `key`: whether
/// `signature` is a valid signature of `timestamp` followed by `body`, named by
/// [`signature_valid`]. The source parses the signature as hex only when it has 128 bytes, so
/// a signature of any other length never verifies.
#[verifier::external_body]
fn verifier_verify(key: &PublicKey, signature: &str, timestamp: &str, body: &[u8]) -> (r: bool)
    ensures
        r == signature_valid(key.key_bytes(), signature@, timestamp@, body@),
        signature.spec_bytes().len() != 128 ==> !r,
{
    key.verifier.verify(signature, timestamp, body).is_ok()
}

/// `serde_json::from_slice` into a `serenity::all::Interaction`, with the interaction's kind and
/// the names of its command options: it succeeds exactly when `body` is the JSON of an
/// interaction ([`is_interaction_json`]), and what it reads for routing is named by
/// [`interaction_route_facts`]. The last arm covers variants later versions of the enum may
/// add (it is `#[non_exhaustive]`).
#[verifier::external_body]
fn interaction_from_json(body: &[u8]) -> (r: Result<
    (serenity::all::Interaction, InteractionKind, Vec<String>),
    serde_json::Error,
>)
    ensures
        r is Ok <==> is_interaction_json(body@),
        r matches Ok(t) ==> interaction_route_facts(body@) == (t.1, names_text(t.2@)),
{
    let interaction = serde_json::from_slice::<Interaction>(body)?;
    let (kind, options) = match &interaction {
        Interaction::Ping(_) => (InteractionKind::Ping, None),
        Interaction::Command(c) => (InteractionKind::Command, Some(&c.data.options)),
        Interaction::Autocomplete(c) => (InteractionKind::Autocomplete, Some(&c.data.options)),
        Interaction::Component(_) => (InteractionKind::Component, None),
        Interaction::Modal(_) => (InteractionKind::Modal, None),
        _ => (InteractionKind::Unknown, None),
    };
    let option_names = options.map_or(Vec::new(), |o| o.iter().map(|o| o.name.clone()).collect());
    Ok((interaction, kind, option_names))
}

/// Why the configured public key is unusable.
pub enum KeyError {
    /// It is no hex string of 32 bytes.
    Hex(HexError),
    /// Its bytes are no valid public key.
    InvalidKey(serenity::all::InvalidKey),
}

/// The public key given in hex as `public_key`: an error when the string does not decode (see
/// [`decode_key_spec`]), or when the bytes are no valid key.
pub fn public_key_verifier(public_key: &str) -> (res: Result<PublicKey, KeyError>)
    ensures
        match decode_key_spec(public_key.spec_bytes()) {
            Err(e) => res matches Err(KeyError::Hex(h)) && h == e,
            Ok(k) => if is_valid_public_key(k) {
                res matches Ok(pk) && pk.key_bytes() == k
            } else {
                res matches Err(KeyError::InvalidKey(_))
            },
        },
{
    let key = match decode_public_key(public_key) {
        Ok(key) => key,
        Err(e) => return Err(KeyError::Hex(e)),
    };
    match verifier_try_new(key) {
        Ok(verifier) => Ok(PublicKey { bytes: key, verifier }),
        Err(e) => Err(KeyError::InvalidKey(e)),
    }
}

/// The text of a signature header, or nothing when it is missing.
pub open spec fn signature_text(header: Option<&XSignatureEd25519>) -> Seq<char> {
    match header {
        Some(h) => h.0@,
        None => Seq::empty(),
    }
}

/// The text of a timestamp header, or nothing when it is missing.
pub open spec fn timestamp_text(header: Option<&XSignatureTimestamp>) -> Seq<char> {
    match header {
        Some(h) => h.0@,
        None => Seq::empty(),
    }
}

/// Whether the signature of a request with these headers and `body` verifies under `key`, a
/// missing header counting as empty.
pub open spec fn request_signed(
    key: &PublicKey,
    signature: Option<&XSignatureEd25519>,
    timestamp: Option<&XSignatureTimestamp>,
    body: Seq<u8>,
) -> bool {
    signature_valid(key.key_bytes(), signature_text(signature), timestamp_text(timestamp), body)
}

/// Checks the signature of a request: a missing header counts as empty, and a request whose
/// signature does not verify is refused with [`ServerError::Validation`].
pub fn validate_request(
    key: &PublicKey,
    signature: Option<&XSignatureEd25519>,
    timestamp: Option<&XSignatureTimestamp>,
    body: &[u8],
) -> (res: Result<(), ServerError>)
    ensures
        res is Ok <==> signature_valid(
            key.key_bytes(),
            signature_text(signature),
            timestamp_text(timestamp),
            body@,
        ),
        res is Ok || res matches Err(ServerError::Validation),
        signature is None ==> res matches Err(ServerError::Validation),
{
    proof {
        reveal_strlit("");
    }
    let sig: &str = match signature {
        Some(header) => header.as_str(),
        None => "",
    };
    let ts: &str = match timestamp {
        Some(header) => header.as_str(),
        None => "",
    };
    assert(sig@ =~= signature_text(signature));
    assert(ts@ =~= timestamp_text(timestamp));
    if verifier_verify(key, sig, ts, body) {
        Ok(())
    } else {
        Err(ServerError::Validation)
    }
}

/// The input error for a body that is no interaction.
pub const NOT_AN_INTERACTION: &'static str = "failed to deserialize interaction";

/// The interaction a request body carries as JSON.
pub fn parse_interaction(body: &[u8]) -> (res: Result<serenity::all::Interaction, ServerError>)
    ensures
        res is Ok <==> is_interaction_json(body@),
        res is Ok || (res matches Err(ServerError::MalformedInput(w)) && w == NOT_AN_INTERACTION),
{
    match interaction_from_json(body) {
        Ok((interaction, _, _)) => Ok(interaction),
        Err(_) => Err(ServerError::MalformedInput(NOT_AN_INTERACTION)),
    }
}

/// Where the interaction whose JSON is `body` goes (see [`route_of`]).
pub open spec fn body_route(body: Seq<u8>) -> Result<Route, ServerError> {
    route_of(interaction_route_facts(body).0, interaction_route_facts(body).1)
}

/// Takes in a request: checks its signature, then reads its interaction, then routes it. A
/// request whose signature does not verify is refused before its body is read, and nothing is
/// routed unless both steps succeed.
pub fn handle_request(
    key: &PublicKey,
    signature: Option<&XSignatureEd25519>,
    timestamp: Option<&XSignatureTimestamp>,
    body: &[u8],
) -> (res: Result<(serenity::all::Interaction, Route), ServerError>)
    ensures
        !request_signed(key, signature, timestamp, body@) ==> res matches Err(
            ServerError::Validation,
        ),
        request_signed(key, signature, timestamp, body@) && !is_interaction_json(body@) ==> (
        res matches Err(ServerError::MalformedInput(w)) && w == NOT_AN_INTERACTION),
        signature is None ==> res matches Err(ServerError::Validation),
        res is Ok ==> request_signed(key, signature, timestamp, body@) && is_interaction_json(
            body@,
        ),
        request_signed(key, signature, timestamp, body@) && is_interaction_json(body@) ==> match body_route(
            body@,
        ) {
            Ok(r) => res matches Ok(accepted) && accepted.1 == r,
            Err(e) => res matches Err(f) && f == e,
        },
{
    validate_request(key, signature, timestamp, body)?;
    let (interaction, kind, option_names) = match interaction_from_json(body) {
        Ok(t) => t,
        Err(_) => return Err(ServerError::MalformedInput(NOT_AN_INTERACTION)),
    };
    let routed = route(kind, &option_names);
    match routed {
        Ok(r) => Ok((interaction, r)),
        Err(e) => Err(e),
    }
}

} // verus!
