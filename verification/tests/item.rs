use daas_bot::export::item::{Item, ItemWithMetadata, MessageData};
use daas_bot::export::vote::{ReactionType, Voter};
use daas_bot::export::{process_message, votes_for_page, PageCursor, ReactionRequest};
use daas_bot::ids::{ChannelId, MessageId, UserId};

fn parse(s: &str) -> Option<(String, Vec<String>, String)> {
    Item::parse(s).ok().map(|i| (i.title, i.tags, i.description))
}

fn owned(v: &[&str]) -> Vec<String> {
    v.iter().map(|s| s.to_string()).collect()
}

#[test]
fn parses_title_tags_and_description() {
    assert_eq!(
        parse("**Pizza** _food_ _italian_ A flat bread with toppings"),
        Some(("Pizza".to_string(), owned(&["food", "italian"]), "A flat bread with toppings".to_string()))
    );
}

#[test]
fn parses_without_tags() {
    assert_eq!(
        parse("**Title** some description"),
        Some(("Title".to_string(), vec![], "some description".to_string()))
    );
}

#[test]
fn parses_tags_without_description() {
    assert_eq!(
        parse("**Title** _tag_"),
        Some(("Title".to_string(), owned(&["tag"]), String::new()))
    );
}

#[test]
fn leading_and_trailing_whitespace_is_ignored() {
    assert_eq!(
        parse("  \n **T**\t_a_\n_b c_   desc  \n"),
        Some(("T".to_string(), owned(&["a", "b c"]), "desc".to_string()))
    );
}

#[test]
fn unicode_whitespace_is_whitespace() {
    assert_eq!(
        parse("\u{3000}**T**\u{a0}_x_\u{2003}d\u{2028}"),
        Some(("T".to_string(), owned(&["x"]), "d".to_string()))
    );
}

#[test]
fn description_may_hold_markup() {
    assert_eq!(
        parse("**T** text with _underscores_ and **stars**"),
        Some((
            "T".to_string(),
            vec![],
            "text with _underscores_ and **stars**".to_string()
        ))
    );
}

#[test]
fn title_may_be_unicode() {
    assert_eq!(
        parse("**Crème brûlée 🍮** _dessert_ très bon"),
        Some(("Crème brûlée 🍮".to_string(), owned(&["dessert"]), "très bon".to_string()))
    );
}

#[test]
fn rejects_message_without_bold_start() {
    assert_eq!(parse("Title** description"), None);
    assert_eq!(parse("*Title* description"), None);
    assert_eq!(parse(""), None);
    assert_eq!(parse("   "), None);
    assert_eq!(parse("hello **Title** world"), None);
}

#[test]
fn rejects_unclosed_title() {
    assert_eq!(parse("**Title description"), None);
    assert_eq!(parse("**"), None);
}

#[test]
fn unclosed_tag_is_description() {
    assert_eq!(
        parse("**Title** _tag description"),
        Some(("Title".to_string(), vec![], "_tag description".to_string()))
    );
    assert_eq!(parse("**T** _open"), Some(("T".to_string(), vec![], "_open".to_string())));
    assert_eq!(
        parse("**T** _a_ _open tail "),
        Some(("T".to_string(), owned(&["a"]), "_open tail".to_string()))
    );
}

#[test]
fn rejects_nothing_after_title() {
    assert_eq!(parse("**Title**"), None);
    assert_eq!(parse("**Title**   \n "), None);
}

#[test]
fn empty_title_and_tag_are_allowed() {
    assert_eq!(
        parse("**** __ d"),
        Some((String::new(), owned(&[""]), "d".to_string()))
    );
}

#[test]
fn title_ends_at_first_double_star() {
    assert_eq!(
        parse("**a***b"),
        Some(("a".to_string(), vec![], "*b".to_string()))
    );
}

#[test]
fn from_str_agrees_with_parse() {
    let item: Item = "**T** _x_ d".parse().unwrap();
    assert_eq!(item.title, "T");
    assert_eq!(item.tags, owned(&["x"]));
    assert_eq!(item.description, "d");
    assert!("nope".parse::<Item>().is_err());
}

fn message(content: &str, reactions: Vec<ReactionType>) -> MessageData {
    MessageData {
        id: MessageId(11),
        channel_id: ChannelId(22),
        content: content.to_string(),
        author_id: UserId(33),
        author_display_name: "Ann".to_string(),
        timestamp: "2024-01-02T03:04:05+00:00".to_string(),
        edited_timestamp: None,
        reactions,
    }
}

#[test]
fn item_with_metadata_keeps_message_facts() {
    let it = ItemWithMetadata::try_from_message(message("**T** d", vec![])).ok().unwrap();
    assert_eq!(it.item.title, "T");
    assert_eq!(it.message_id, MessageId(11));
    assert_eq!(it.posted_by, UserId(33));
    assert_eq!(it.posted_by_display_name, "Ann");
    assert_eq!(it.created_at, "2024-01-02T03:04:05+00:00");
    assert_eq!(it.modified_at, None);
    assert!(ItemWithMetadata::try_from_message(message("plain", vec![])).is_err());
}

#[test]
fn process_message_plans_reactions_then_item() {
    let reactions = vec![
        ReactionType::Unicode("👍".to_string()),
        ReactionType::Custom { animated: false, id: 7, name: Some("party".to_string()) },
    ];
    let plan = process_message(message("**T** d", reactions.clone())).unwrap();
    assert_eq!(plan.reaction_requests.len(), 2);
    for (req, reaction) in plan.reaction_requests.iter().zip(reactions.iter()) {
        assert_eq!(req.channel_id, ChannelId(22));
        assert_eq!(req.message_id, MessageId(11));
        assert_eq!(&req.reaction_type, reaction);
    }
    assert_eq!(plan.item.item.title, "T");
    assert!(process_message(message("not an item", reactions)).is_none());
}

#[test]
fn page_cursor_follows_last_entry_and_stops_on_empty_page() {
    let mut cursor = PageCursor::new();
    assert_eq!(cursor.position, None);
    assert!(cursor.advance(&vec![30, 20, 10]));
    assert_eq!(cursor.position, Some(10));
    assert!(cursor.advance(&vec![5]));
    assert_eq!(cursor.position, Some(5));
    assert!(!cursor.advance(&vec![]));
}

#[test]
fn votes_for_page_casts_one_vote_per_user() {
    let request = ReactionRequest {
        channel_id: ChannelId(1),
        message_id: MessageId(2),
        reaction_type: ReactionType::Custom { animated: true, id: 9001, name: None },
    };
    let voters = vec![
        Voter { id: UserId(4), display_name: "Ann".to_string() },
        Voter { id: UserId(5), display_name: "Bo".to_string() },
    ];
    let votes = votes_for_page(&request, &voters);
    assert_eq!(votes.len(), 2);
    assert_eq!(votes[0].item_id, MessageId(2));
    assert_eq!(votes[0].user_id, UserId(4));
    assert_eq!(votes[0].voter_display_name, "Ann");
    assert_eq!(votes[1].user_id, UserId(5));
    assert_eq!(votes[1].voter_display_name, "Bo");
    assert_eq!(votes[1].emoji, "9001");
}
