use daas_bot::ids::{ChannelId, GuildId, UserId};
use daas_bot::register::{daas_command, CommandContext};
use daas_bot::server::error::{join_lines, ServerError};
use daas_bot::server::followup::{
    attachment_description, channel_display_name, export_failure_content, export_success_content,
};
use daas_bot::server::handlers::{
    cleanup, disable, enable, enable_reply, export, help, may_manage_guild, ping, CommandFacts,
    MemberFacts,
};
use daas_bot::server::help::HELP_MESSAGE;
use daas_bot::server::into_response::{InteractionResponse, IntoResponse, Reply};
use daas_bot::server::key::{decode_public_key, HexError};
use daas_bot::server::route::{route, InteractionKind, Route, Subcommand};
use daas_bot::server::validate::{
    handle_request, parse_interaction, public_key_verifier, validate_request, KeyError,
    XSignatureEd25519, XSignatureTimestamp,
};
use daas_bot::sql::bot::apply_bot_schema;

fn facts(permissions: Option<u64>, guild: Option<u64>) -> CommandFacts {
    CommandFacts {
        guild_id: guild.map(GuildId),
        channel_id: ChannelId(5),
        user_id: UserId(6),
        member: Some(MemberFacts { permissions }),
    }
}

fn content(r: InteractionResponse) -> (bool, Option<String>) {
    match r {
        InteractionResponse::Message(m) => (m.ephemeral, m.content),
        _ => panic!("expected a message"),
    }
}

#[test]
fn status_codes() {
    assert_eq!(ServerError::Validation.status_code(), 401);
    assert_eq!(ServerError::MalformedInput("x").status_code(), 400);
    assert_eq!(ServerError::UnsupportedInteractionType.status_code(), 400);
    assert_eq!(ServerError::UnknownCommand.status_code(), 400);
}

#[test]
fn error_bodies() {
    assert_eq!(ServerError::MalformedInput("no guild id").error_body(), "malformed input: no guild id\n");
    assert_eq!(ServerError::Validation.error_body(), "security request header validation failed\n");
    assert_eq!(join_lines(&vec!["a".to_string(), "b".to_string()]), "a\nb\n");
}

#[test]
fn manage_guild_permission_is_bit_five() {
    assert_eq!(may_manage_guild(&facts(Some(0x20), Some(1))).ok(), Some(true));
    assert_eq!(may_manage_guild(&facts(Some(0x8), Some(1))).ok(), Some(false));
    assert_eq!(may_manage_guild(&facts(Some(u64::MAX), Some(1))).ok(), Some(true));
    match may_manage_guild(&facts(None, Some(1))) {
        Err(ServerError::MalformedInput(w)) => assert_eq!(w, "no member permissions"),
        _ => panic!(),
    }
    let mut f = facts(Some(0x20), Some(1));
    f.member = None;
    match may_manage_guild(&f) {
        Err(ServerError::MalformedInput(w)) => assert_eq!(w, "no interaction member"),
        _ => panic!(),
    }
}

fn bot_db() -> rusqlite::Connection {
    let mut conn = rusqlite::Connection::open_in_memory().unwrap();
    assert!(apply_bot_schema(&mut conn).is_ok());
    conn
}

#[test]
fn enable_requires_manage_guild() {
    let mut conn = bot_db();
    let r = enable(&facts(Some(0), Some(1)), &mut conn).ok().unwrap();
    assert_eq!(content(r.into_interaction()), (true, Some("permission denied".to_string())));
}

#[test]
fn enable_then_export_defers() {
    let mut conn = bot_db();
    let f = facts(Some(0x20), Some(1));
    match export(&f, &conn).ok().unwrap() {
        Reply::Message(m) => assert_eq!(m.0.content.as_deref(), Some("permission denied")),
        Reply::Defer(_) => panic!("not enabled yet"),
    }
    let first = enable(&f, &mut conn).ok().unwrap();
    assert_eq!(
        content(first.into_interaction()),
        (false, Some("DAAS enabled for this channel. Run `/daas export` to perform an export.".to_string()))
    );
    let second = enable(&f, &mut conn).ok().unwrap();
    assert_eq!(
        content(second.into_interaction()),
        (true, Some("DAAS was already enabled for this channel".to_string()))
    );
    match export(&f, &conn).ok().unwrap() {
        Reply::Defer(d) => assert!(d.0.content.is_none()),
        Reply::Message(_) => panic!("enabled channel must defer"),
    }
    match cleanup(&f, &conn).ok().unwrap() {
        Reply::Defer(d) => assert!(d.0.ephemeral && d.0.content.is_none()),
        Reply::Message(_) => panic!("enabled channel must start the cleanup"),
    }
    let off = disable(&f, &mut conn).ok().unwrap();
    assert_eq!(content(off.into_interaction()), (false, Some("DAAS disabled for this channel".to_string())));
    let again = disable(&f, &mut conn).ok().unwrap();
    assert_eq!(content(again.into_interaction()), (true, Some("DAAS was not enabled for this channel".to_string())));
    match export(&f, &conn).ok().unwrap() {
        Reply::Message(m) => assert_eq!(m.0.content.as_deref(), Some("permission denied")),
        Reply::Defer(_) => panic!("disabled channel must refuse"),
    }
    match cleanup(&f, &conn).ok().unwrap() {
        Reply::Message(m) => assert_eq!(m.0.content.as_deref(), Some("permission denied")),
        Reply::Defer(_) => panic!("disabled channel must refuse"),
    }
}

#[test]
fn handlers_need_a_guild() {
    let mut conn = bot_db();
    for r in [export(&facts(Some(0x20), None), &conn).err(), cleanup(&facts(Some(0x20), None), &conn).err()] {
        match r {
            Some(ServerError::MalformedInput(w)) => assert_eq!(w, "no guild id"),
            _ => panic!(),
        }
    }
    match enable(&facts(Some(0x20), None), &mut conn) {
        Err(ServerError::MalformedInput(w)) => assert_eq!(w, "no guild id"),
        _ => panic!(),
    }
}

#[test]
fn enable_reply_texts() {
    assert_eq!(enable_reply(false).0.content.as_deref(), Some("DAAS was already enabled for this channel"));
    assert!(!enable_reply(true).0.ephemeral);
}

#[test]
fn help_and_ping() {
    let m = help().ok().unwrap();
    assert!(m.0.ephemeral);
    assert_eq!(m.0.content.as_deref(), Some(HELP_MESSAGE));
    assert!(HELP_MESSAGE.starts_with("# **Discord As A Spreadsheet Bot** Help"));
    assert!(matches!(ping().ok().unwrap().into_interaction(), InteractionResponse::Pong));
}

fn names(v: &[&str]) -> Vec<String> {
    v.iter().map(|s| s.to_string()).collect()
}

#[test]
fn routing() {
    assert_eq!(route(InteractionKind::Ping, &names(&[])).ok(), Some(Route::Ping));
    for (name, sub) in [
        ("cleanup", Subcommand::Cleanup),
        ("disable", Subcommand::Disable),
        ("enable", Subcommand::Enable),
        ("export", Subcommand::Export),
        ("help", Subcommand::Help),
    ] {
        assert_eq!(route(InteractionKind::Command, &names(&[name])).ok(), Some(Route::Command(sub)));
    }
    assert_eq!(
        route(InteractionKind::Command, &names(&["help", "export"])).ok(),
        Some(Route::Command(Subcommand::Help))
    );
    assert!(matches!(route(InteractionKind::Command, &names(&["frobnicate", "help"])), Err(ServerError::UnknownCommand)));
    assert!(matches!(route(InteractionKind::Command, &names(&[])), Err(ServerError::UnknownCommand)));
    for kind in [
        InteractionKind::Autocomplete,
        InteractionKind::Component,
        InteractionKind::Modal,
        InteractionKind::Unknown,
    ] {
        assert!(matches!(route(kind, &names(&["help"])), Err(ServerError::UnsupportedInteractionType)));
    }
}

#[test]
fn public_key_decoding() {
    let hex = "67c6bd767ca099e79efac9fcce4d2022a63bf7dea780e7f3d813f694c1597089";
    let key = decode_public_key(hex).unwrap();
    assert_eq!(key[0], 0x67);
    assert_eq!(key[1], 0xc6);
    assert_eq!(key[31], 0x89);
    assert_eq!(decode_public_key(&hex.to_uppercase()).unwrap(), key);
    assert_eq!(decode_public_key("abc"), Err(HexError::OddLength));
    assert_eq!(decode_public_key("abcd"), Err(HexError::InvalidStringLength));
    let bad = format!("{}zz", &hex[..62]);
    assert_eq!(decode_public_key(&bad), Err(HexError::InvalidHexCharacter { c: 'z', index: 62 }));
}

#[test]
fn verifier_refuses_bad_signatures() {
    let verifier = public_key_verifier("67c6bd767ca099e79efac9fcce4d2022a63bf7dea780e7f3d813f694c1597089")
        .ok()
        .unwrap();
    assert!(matches!(validate_request(&verifier, None, None, b"{}"), Err(ServerError::Validation)));
    let sig = XSignatureEd25519("00".repeat(64));
    let ts = XSignatureTimestamp("1".to_string());
    assert!(matches!(validate_request(&verifier, Some(&sig), Some(&ts), b"{}"), Err(ServerError::Validation)));
    assert_eq!(XSignatureEd25519::name(), "x-signature-ed25519");
    assert_eq!(XSignatureTimestamp::name(), "x-signature-timestamp");
    assert!(matches!(public_key_verifier("xyz"), Err(KeyError::Hex(HexError::OddLength))));
}

const PING: &[u8] = br#"{"id":"1","application_id":"2","type":1,"token":"t","version":1}"#;

#[test]
fn public_key_keeps_the_decoded_bytes() {
    let key = public_key_verifier("d75a980182b10ab7d54bfed3c964073a0ee172f3daa62325af021a68f707511a")
        .ok()
        .unwrap();
    let bytes = key.bytes();
    assert_eq!(bytes[0], 0xd7);
    assert_eq!(bytes[1], 0x5a);
    assert_eq!(bytes[31], 0x1a);
}

#[test]
fn unsigned_requests_are_refused_before_parsing() {
    let key = public_key_verifier("d75a980182b10ab7d54bfed3c964073a0ee172f3daa62325af021a68f707511a")
        .ok()
        .unwrap();
    assert!(matches!(handle_request(&key, None, None, PING), Err(ServerError::Validation)));
    assert!(matches!(handle_request(&key, None, None, b"not json"), Err(ServerError::Validation)));
    let sig = XSignatureEd25519("ab".repeat(64));
    let ts = XSignatureTimestamp("1700000000".to_string());
    assert!(matches!(
        handle_request(&key, Some(&sig), Some(&ts), PING),
        Err(ServerError::Validation)
    ));
}

#[test]
fn ping_body_is_an_interaction() {
    assert!(parse_interaction(PING).is_ok());
}

#[test]
fn malformed_interactions_are_refused() {
    match parse_interaction(b"not json") {
        Err(ServerError::MalformedInput(w)) => assert_eq!(w, "failed to deserialize interaction"),
        _ => panic!(),
    }
}

#[test]
fn followup_texts() {
    assert_eq!(channel_display_name(None), "this channel");
    assert_eq!(channel_display_name(Some("general")), "general");
    assert_eq!(export_success_content("general", "NOW", "1s"), "Exported general at NOW in 1s");
    assert_eq!(
        export_failure_content(&vec!["top".to_string(), "cause".to_string()]),
        "daas-bot encountered a problem while performing export:\n\ntop\ncause\n"
    );
    assert_eq!(
        attachment_description("general", "NOW"),
        "The items and votes tabulated in general, as calculated at NOW by Daas Bot"
    );
}

#[test]
fn command_definition() {
    let c = daas_command();
    assert_eq!(c.name, "daas");
    assert_eq!(c.description, "DAAS Bot Commands");
    assert_eq!(c.contexts, vec![CommandContext::Guild]);
    let names: Vec<&str> = c.subcommands.iter().map(|s| s.name).collect();
    assert_eq!(names, vec!["enable", "disable", "export", "cleanup", "help"]);
}
