use daas_bot::export::holder::VoteHolder;
use daas_bot::export::vote::{emoji_of, ReactionType, Vote, Voter};
use daas_bot::ids::{MessageId, UserId};
use daas_bot::text::decimal_string;

#[test]
fn emoji_of_unicode_is_the_emoji() {
    assert_eq!(emoji_of(&ReactionType::Unicode("🎉".to_string())), "🎉");
}

#[test]
fn emoji_of_named_custom_is_its_name() {
    let r = ReactionType::Custom { animated: false, id: 123, name: Some("blob".to_string()) };
    assert_eq!(emoji_of(&r), "blob");
}

#[test]
fn emoji_of_unnamed_custom_is_its_id() {
    let r = ReactionType::Custom { animated: false, id: 1234567890123, name: None };
    assert_eq!(emoji_of(&r), "1234567890123");
}

#[test]
fn decimal_matches_display() {
    for n in [0u64, 7, 10, 99, 100, 4096, 18446744073709551615] {
        assert_eq!(decimal_string(n), n.to_string());
    }
}

#[test]
fn vote_new_records_item_user_and_emoji() {
    let voter = Voter { id: UserId(2), display_name: "Ann".to_string() };
    let v = Vote::new(MessageId(1), &voter, &ReactionType::Unicode("👍".to_string()));
    assert_eq!(v.item_id, MessageId(1));
    assert_eq!(v.user_id, UserId(2));
    assert_eq!(v.voter_display_name, "Ann");
    assert_eq!(v.emoji, "👍");
}

fn vote(item: u64, user: u64) -> Vote {
    Vote {
        item_id: MessageId(item),
        user_id: UserId(user),
        voter_display_name: format!("user {user}"),
        emoji: "x".to_string(),
    }
}

fn users(votes: &[Vote]) -> Vec<u64> {
    votes.iter().map(|v| v.user_id.0).collect()
}

#[test]
fn votes_wait_for_their_item() {
    let mut h = VoteHolder::new();
    assert!(h.vote_received(vote(1, 10)).is_none());
    assert!(h.vote_received(vote(2, 20)).is_none());
    assert!(h.vote_received(vote(1, 11)).is_none());
    let released = h.item_persisted(MessageId(1));
    assert_eq!(users(&released), vec![10, 11]);
    let released = h.item_persisted(MessageId(3));
    assert!(released.is_empty());
    let released = h.item_persisted(MessageId(2));
    assert_eq!(users(&released), vec![20]);
}

#[test]
fn votes_for_persisted_items_pass_at_once() {
    let mut h = VoteHolder::new();
    assert!(h.item_persisted(MessageId(5)).is_empty());
    let v = h.vote_received(vote(5, 50)).unwrap();
    assert_eq!(v.user_id, UserId(50));
    assert!(h.item_persisted(MessageId(5)).is_empty());
}
