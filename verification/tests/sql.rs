use daas_bot::export::item::{Item, ItemWithMetadata};
use daas_bot::export::vote::Vote;
use daas_bot::ids::{ChannelId, GuildId, MessageId, UserId};
use daas_bot::sql::bot::{
    apply_bot_schema, channel_is_enabled, channel_is_enabled_plan, disable_channel,
    disable_channel_plan, enable_channel, enable_channel_plan, exists_answer, rows_changed,
    CHANNEL_IS_ENABLED_QUERY, DISABLE_CHANNEL_QUERY, ENABLE_CHANNEL_QUERY,
};
use daas_bot::sql::calls::{SqlParam, SqlValue};
use daas_bot::sql::error::SqlError;
use daas_bot::sql::export::{
    add_item, add_item_plan, add_vote, add_vote_plan, new_export_database, persist_item,
    persist_vote,
    vacuum_into, ADD_ITEM_QUERY, ADD_VOTE_QUERY,
};
use daas_bot::sql::to_sql_integer::{bits_as_i64, ToSqlInteger};

#[test]
fn to_sql_is_a_bit_cast() {
    assert_eq!(bits_as_i64(0), 0);
    assert_eq!(bits_as_i64(42), 42);
    assert_eq!(bits_as_i64(i64::MAX as u64), i64::MAX);
    assert_eq!(bits_as_i64(1u64 << 63), i64::MIN);
    assert_eq!(bits_as_i64(u64::MAX), -1);
    assert_eq!(UserId(u64::MAX - 1).to_sql(), -2);
    assert_eq!(GuildId(5).to_u64(), 5);
    let x: u64 = 1234567890123456789;
    assert_eq!(MessageId(x).to_sql(), i64::from_ne_bytes(x.to_ne_bytes()));
}

#[test]
fn rows_and_exists_answers() {
    assert!(!rows_changed(0));
    assert!(rows_changed(1));
    assert!(!exists_answer(0));
    assert!(exists_answer(1));
}

fn bot_db() -> rusqlite::Connection {
    let mut conn = rusqlite::Connection::open_in_memory().unwrap();
    assert!(apply_bot_schema(&mut conn).is_ok());
    conn
}

#[test]
fn enabling_then_checking_then_disabling_a_channel() {
    let mut conn = bot_db();
    let (g, c) = (GuildId(1), ChannelId(u64::MAX));
    assert!(!channel_is_enabled(&conn, g, c).ok().unwrap());
    assert!(enable_channel(&mut conn, g, c, UserId(9)).ok().unwrap());
    assert!(!enable_channel(&mut conn, g, c, UserId(9)).ok().unwrap());
    assert!(channel_is_enabled(&conn, g, c).ok().unwrap());
    assert!(!channel_is_enabled(&conn, g, ChannelId(2)).ok().unwrap());
    assert!(disable_channel(&mut conn, g, c).ok().unwrap());
    assert!(!disable_channel(&mut conn, g, c).ok().unwrap());
    assert!(!channel_is_enabled(&conn, g, c).ok().unwrap());
}

#[test]
fn database_errors_name_their_context() {
    let mut conn = rusqlite::Connection::open_in_memory().unwrap();
    match enable_channel(&mut conn, GuildId(1), ChannelId(2), UserId(3)) {
        Err(e @ SqlError::Rusqlite { .. }) => {
            let lines = e.messages();
            assert_eq!(lines[0], "preparing statement to enable channel");
            assert!(lines.len() >= 2);
        }
        _ => panic!("expected an error without schema"),
    }
}

fn item(id: u64, user: u64, tags: &[&str]) -> ItemWithMetadata {
    ItemWithMetadata {
        item: Item {
            title: format!("title {id}"),
            tags: tags.iter().map(|t| t.to_string()).collect(),
            description: "desc".to_string(),
        },
        message_id: MessageId(id),
        posted_by: UserId(user),
        posted_by_display_name: "Ann".to_string(),
        created_at: "2024-01-02T03:04:05+00:00".to_string(),
        modified_at: Some("2024-01-03T00:00:00+00:00".to_string()),
    }
}

#[test]
fn export_database_collects_items_tags_and_votes() {
    let mut conn = new_export_database().ok().unwrap();
    assert_eq!(add_item(&mut conn, &item(1, 7, &["a", "b"])).ok().unwrap(), 1);
    assert_eq!(add_item(&mut conn, &item(2, 7, &["b"])).ok().unwrap(), 2);
    let v = vote(1, 8);
    assert!(persist_vote(&mut conn, &v).is_ok());
    let v = vote(2, 8);
    assert!(persist_vote(&mut conn, &v).is_ok());
    let v = vote(2, 7);
    assert!(add_vote(&mut conn, &v).is_ok());
    let count = |sql: &str| -> i64 { conn.query_row(sql, [], |r| r.get(0)).unwrap() };
    assert_eq!(count("SELECT COUNT(*) FROM items"), 2);
    assert_eq!(count("SELECT COUNT(*) FROM users"), 2);
    assert_eq!(count("SELECT COUNT(*) FROM tags"), 2);
    assert_eq!(count("SELECT COUNT(*) FROM tag_associations"), 3);
    assert_eq!(count("SELECT COUNT(*) FROM categories"), 1);
    assert_eq!(count("SELECT COUNT(*) FROM votes"), 3);
    assert_eq!(count("SELECT COUNT(*) FROM items WHERE edited IS NULL"), 0);
}

fn vote(item: u64, user: u64) -> Vote {
    Vote {
        item_id: MessageId(item),
        user_id: UserId(user),
        voter_display_name: format!("user {user}"),
        emoji: "👍".to_string(),
    }
}

#[test]
fn a_vote_needs_its_voter_and_item() {
    let mut conn = new_export_database().ok().unwrap();
    assert!(add_item(&mut conn, &item(1, 7, &[])).is_ok());
    match add_vote(&mut conn, &vote(1, 8)) {
        Err(e) => assert_eq!(e.messages()[0], "adding a vote to the export"),
        Ok(()) => panic!("a vote by an unknown user must fail"),
    }
    match persist_vote(&mut conn, &vote(2, 7)) {
        Err(e) => assert_eq!(e.messages()[0], "adding a vote to the export"),
        Ok(()) => panic!("a vote on an unknown item must fail"),
    }
    let votes: i64 = conn.query_row("SELECT COUNT(*) FROM votes", [], |r| r.get(0)).unwrap();
    assert_eq!(votes, 0);
}

#[test]
fn an_unedited_item_records_its_posting_time_as_edit_time() {
    let mut conn = new_export_database().ok().unwrap();
    let mut it = item(4, 7, &[]);
    it.modified_at = None;
    assert!(add_item(&mut conn, &it).is_ok());
    let edited: String =
        conn.query_row("SELECT edited FROM items WHERE id = 4", [], |r| r.get(0)).unwrap();
    assert_eq!(edited, "2024-01-02T03:04:05+00:00");
    let plan = add_item_plan(&it, 7);
    assert_eq!(plan.sql, ADD_ITEM_QUERY);
    assert_eq!(plan.params[5].name, ":edited");
    assert_eq!(plan.params[5].value, SqlValue::Text("2024-01-02T03:04:05+00:00".to_string()));
}

fn int_p(name: &'static str, value: i64) -> SqlParam {
    SqlParam { name, value: SqlValue::Integer(value) }
}

#[test]
fn plans_name_their_statement_and_parameters() {
    let (g, c, u) = (GuildId(1), ChannelId(u64::MAX), UserId(9));
    let p = enable_channel_plan(g, c, u);
    assert_eq!(p.sql, ENABLE_CHANNEL_QUERY);
    assert_eq!(p.params, vec![int_p(":guild_id", 1), int_p(":channel_id", -1), int_p(":actor", 9)]);
    let p = disable_channel_plan(g, c);
    assert_eq!(p.sql, DISABLE_CHANNEL_QUERY);
    assert_eq!(p.params, vec![int_p(":guild_id", 1), int_p(":channel_id", -1)]);
    let p = channel_is_enabled_plan(g, c);
    assert_eq!(p.sql, CHANNEL_IS_ENABLED_QUERY);
    assert_eq!(p.params, vec![int_p(":guild_id", 1), int_p(":channel_id", -1)]);
    let p = add_vote_plan(&vote(3, 8), 2);
    assert_eq!(p.sql, ADD_VOTE_QUERY);
    assert_eq!(p.params, vec![int_p(":item_id", 3), int_p(":user_id", 8), int_p(":category_id", 2)]);
}

#[test]
fn a_failed_item_adds_nothing() {
    let mut conn = new_export_database().ok().unwrap();
    assert!(add_item(&mut conn, &item(1, 7, &["a"])).is_ok());
    let again = add_item(&mut conn, &item(1, 7, &["z"]));
    match again {
        Err(e) => assert_eq!(e.messages()[0], "adding an item to the export"),
        Ok(_) => panic!("duplicate item id must fail"),
    }
    let tags: i64 = conn.query_row("SELECT COUNT(*) FROM tags", [], |r| r.get(0)).unwrap();
    assert_eq!(tags, 1);
}

#[test]
fn vacuum_writes_a_readable_copy() {
    let mut conn = new_export_database().ok().unwrap();
    assert!(add_item(&mut conn, &item(3, 7, &[])).is_ok());
    let dir = tempfile::tempdir().unwrap();
    let path = dir.path().join("out.sqlite");
    assert!(vacuum_into(&conn, path.to_str().unwrap()).is_ok());
    let copy = rusqlite::Connection::open(&path).unwrap();
    let n: i64 = copy.query_row("SELECT COUNT(*) FROM items", [], |r| r.get(0)).unwrap();
    assert_eq!(n, 1);
}

#[test]
fn a_persisted_item_reports_its_message() {
    let mut conn = new_export_database().ok().unwrap();
    assert_eq!(persist_item(&mut conn, &item(12, 7, &["a", "a"])).ok(), Some(MessageId(12)));
    let links: i64 =
        conn.query_row("SELECT COUNT(*) FROM tag_associations", [], |r| r.get(0)).unwrap();
    assert_eq!(links, 1);
    assert!(persist_item(&mut conn, &item(12, 7, &[])).is_err());
}

#[test]
fn enabling_one_pair_leaves_the_others() {
    let mut conn = bot_db();
    assert!(enable_channel(&mut conn, GuildId(1), ChannelId(2), UserId(9)).ok().unwrap());
    assert!(!channel_is_enabled(&conn, GuildId(2), ChannelId(1)).ok().unwrap());
    assert!(enable_channel(&mut conn, GuildId(2), ChannelId(1), UserId(9)).ok().unwrap());
    assert!(disable_channel(&mut conn, GuildId(1), ChannelId(2)).ok().unwrap());
    assert!(channel_is_enabled(&conn, GuildId(2), ChannelId(1)).ok().unwrap());
    let by: i64 = conn
        .query_row("SELECT enabled_by FROM enabled_channels", [], |r| r.get(0))
        .unwrap();
    assert_eq!(by, 9);
}
