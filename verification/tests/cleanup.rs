use daas_bot::ids::{MessageId, UserId};
use daas_bot::server::cleanup::{
    cleanup_done_content, cleanup_failure_content, exports_to_delete, is_export, ChannelMessage,
};

const BOT: UserId = UserId(7);

fn msg(id: u64, author: u64, files: &[&str]) -> ChannelMessage {
    ChannelMessage {
        id: MessageId(id),
        author_id: UserId(author),
        attachment_names: files.iter().map(|f| f.to_string()).collect(),
    }
}

fn ids(v: Vec<MessageId>) -> Vec<u64> {
    v.into_iter().map(|m| m.0).collect()
}

#[test]
fn export_messages_are_the_bots_with_the_export_file() {
    assert!(is_export(&msg(1, 7, &["export.sqlite"]), BOT));
    assert!(is_export(&msg(1, 7, &["notes.txt", "export.sqlite"]), BOT));
    assert!(!is_export(&msg(1, 8, &["export.sqlite"]), BOT));
    assert!(!is_export(&msg(1, 7, &["other.sqlite"]), BOT));
    assert!(!is_export(&msg(1, 7, &[]), BOT));
}

#[test]
fn cleanup_keeps_the_most_recent_export() {
    let messages = vec![
        msg(50, 3, &[]),
        msg(40, 7, &["export.sqlite"]),
        msg(30, 8, &["export.sqlite"]),
        msg(20, 7, &["export.sqlite"]),
        msg(15, 7, &[]),
        msg(10, 7, &["export.sqlite"]),
    ];
    assert_eq!(ids(exports_to_delete(&messages, BOT)), vec![20, 10]);
}

#[test]
fn cleanup_with_one_or_no_export_deletes_nothing() {
    assert!(exports_to_delete(&vec![], BOT).is_empty());
    assert!(exports_to_delete(&vec![msg(5, 7, &["export.sqlite"])], BOT).is_empty());
    assert!(exports_to_delete(&vec![msg(5, 3, &["export.sqlite"]), msg(4, 7, &[])], BOT).is_empty());
}

#[test]
fn cleanup_follow_ups() {
    assert_eq!(cleanup_done_content(0), "Removed 0 old exports from this channel.");
    assert_eq!(cleanup_done_content(12), "Removed 12 old exports from this channel.");
    assert_eq!(
        cleanup_failure_content(&vec!["top".to_string(), "cause".to_string()]),
        "daas-bot encountered a problem while cleaning up exports:\n\ntop\ncause\n"
    );
}
