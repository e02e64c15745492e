//! Votes: one user's reaction to one item.
use vstd::prelude::*;

use crate::ids::{MessageId, UserId};
use crate::text::{decimal, decimal_string, digits_value, lemma_decimal_spells};

verus! {

/// The kind of a reaction on a message.
#[derive(Debug, PartialEq, Eq)]
pub enum ReactionType {
    /// A guild's custom emoji, identified by its id; its name is decoration.
    Custom { animated: bool, id: u64, name: Option<String> },
    /// A standard (unicode) emoji.
    Unicode(String),
}

impl Clone for ReactionType {
    fn clone(&self) -> (r: ReactionType)
        ensures
            r == *self,
    {
        match self {
            ReactionType::Custom { animated, id, name } => ReactionType::Custom {
                animated: *animated,
                id: *id,
                name: match name {
                    Some(n) => Some(n.clone()),
                    None => None,
                },
            },
            ReactionType::Unicode(emoji) => ReactionType::Unicode(emoji.clone()),
        }
    }
}

/// The text under which a reaction is tallied: the unicode emoji itself, or a custom emoji's
/// name, or, for a custom emoji without a name, its id in decimal.
pub open spec fn emoji_spec(reaction: ReactionType) -> Seq<char> {
    match reaction {
        ReactionType::Unicode(emoji) => emoji@,
        ReactionType::Custom { id, name, .. } => match name {
            Some(n) => n@,
            None => decimal(id as nat),
        },
    }
}

/// Law: a unicode reaction is tallied under its emoji; a custom emoji with a name under that
/// name, whether or not it is animated; a custom emoji without a name under its id, spelled
/// in decimal digits without leading zeros.
pub proof fn lemma_emoji_tally(reaction: ReactionType)
    ensures
        reaction matches ReactionType::Unicode(e) ==> emoji_spec(reaction) == e@,
        reaction matches ReactionType::Custom { name: Some(n), .. } ==> emoji_spec(reaction)
            == n@,
        reaction matches ReactionType::Custom { id, name: None, .. } ==> digits_value(
            emoji_spec(reaction),
        ) == id && (emoji_spec(reaction)[0] == '0' ==> id == 0) && forall|i: int|
            0 <= i < emoji_spec(reaction).len() ==> '0' <= #[trigger] emoji_spec(reaction)[i]
                <= '9',
        reaction matches ReactionType::Custom { animated, id, name } ==> emoji_spec(reaction)
            == emoji_spec(ReactionType::Custom { animated: !animated, id, name }),
{
    if let ReactionType::Custom { id, name: None, .. } = reaction {
        lemma_decimal_spells(id as nat);
    }
}

/// The text under which `reaction` is tallied (see [`emoji_spec`]).
pub fn emoji_of(reaction: &ReactionType) -> (r: String)
    ensures
        r@ == emoji_spec(*reaction),
{
    match reaction {
        ReactionType::Unicode(emoji) => emoji.clone(),
        ReactionType::Custom { id, name, .. } => match name {
            Some(n) => n.clone(),
            None => decimal_string(*id),
        },
    }
}

/// A user who reacted to a message.
pub struct Voter {
    pub id: UserId,
    /// The user's display name: their global name if they have one, else their user name.
    pub display_name: String,
}

/// One user's reaction to one item.
pub struct Vote {
    pub item_id: MessageId,
    pub user_id: UserId,
    /// The voter's display name, under which the export records them.
    pub voter_display_name: String,
    pub emoji: String,
}

impl Vote {
    /// The vote cast on the item posted as `message_id` by `voter` reacting with `reaction`.
    pub fn new(message_id: MessageId, voter: &Voter, reaction: &ReactionType) -> (v: Vote)
        ensures
            v.item_id == message_id,
            v.user_id == voter.id,
            v.voter_display_name@ == voter.display_name@,
            v.emoji@ == emoji_spec(*reaction),
    {
        Vote {
            user_id: voter.id,
            item_id: message_id,
            voter_display_name: voter.display_name.clone(),
            emoji: emoji_of(reaction),
        }
    }
}

} // verus!
