//! The logic of exporting a channel: items, votes, and the bookkeeping between them.
pub mod holder;
pub mod item;
pub mod vote;

use vstd::prelude::*;

use crate::export::item::{parse_item, ItemWithMetadata, MessageData};
use crate::export::vote::{emoji_spec, ReactionType, Vote, Voter};
use crate::ids::{ChannelId, MessageId, UserId};

verus! {

/// A request to fetch the users who reacted to a message with one reaction type.
pub struct ReactionRequest {
    pub channel_id: ChannelId,
    pub message_id: MessageId,
    pub reaction_type: ReactionType,
}

impl ReactionRequest {
    /// The request for the users who reacted to `message` with `reaction_type`.
    pub fn new(message: &MessageData, reaction_type: ReactionType) -> (r: ReactionRequest)
        ensures
            r.channel_id == message.channel_id,
            r.message_id == message.id,
            r.reaction_type == reaction_type,
    {
        ReactionRequest { channel_id: message.channel_id, message_id: message.id, reaction_type }
    }
}

/// What to do with one message of the channel: the reactions whose users are to be fetched,
/// and the item to persist.
pub struct MessagePlan {
    pub reaction_requests: Vec<ReactionRequest>,
    pub item: ItemWithMetadata,
}

/// Processes one message: when it holds an item, one reaction request per reaction on it (in
/// the message's order) and the item; nothing otherwise.
pub fn process_message(msg: MessageData) -> (plan: Option<MessagePlan>)
    ensures
        parse_item(msg.content@) is Some <==> plan is Some,
        plan matches Some(p) ==> {
            &&& Some(p.item.item@) == parse_item(msg.content@)
            &&& p.item.message_id == msg.id
            &&& p.item.posted_by == msg.author_id
            &&& p.item.posted_by_display_name == msg.author_display_name
            &&& p.item.created_at == msg.timestamp
            &&& p.item.modified_at == msg.edited_timestamp
            &&& p.reaction_requests.len() == msg.reactions.len()
            &&& forall|i: int|
                0 <= i < msg.reactions.len() ==> {
                    &&& (#[trigger] p.reaction_requests[i]).channel_id == msg.channel_id
                    &&& p.reaction_requests[i].message_id == msg.id
                    &&& p.reaction_requests[i].reaction_type == msg.reactions[i]
                }
        },
{
    let MessageData {
        id,
        channel_id,
        content,
        author_id,
        author_display_name,
        timestamp,
        edited_timestamp,
        reactions,
    } = msg;
    let message_id = id;
    let rest = MessageData {
        id,
        channel_id,
        content,
        author_id,
        author_display_name,
        timestamp,
        edited_timestamp,
        reactions: Vec::new(),
    };
    match ItemWithMetadata::try_from_message(rest) {
        Err(_) => None,
        Ok(item) => {
            let mut reaction_requests: Vec<ReactionRequest> = Vec::new();
            let mut i: usize = 0;
            while i < reactions.len()
                invariant
                    i <= reactions.len(),
                    reaction_requests.len() == i,
                    forall|j: int|
                        0 <= j < i ==> {
                            &&& (#[trigger] reaction_requests[j]).channel_id == channel_id
                            &&& reaction_requests[j].message_id == message_id
                            &&& reaction_requests[j].reaction_type == reactions[j]
                        },
                decreases reactions.len() - i,
            {
                reaction_requests.push(
                    ReactionRequest {
                        channel_id,
                        message_id,
                        reaction_type: reactions[i].clone(),
                    },
                );
                i = i + 1;
            }
            Some(MessagePlan { reaction_requests, item })
        },
    }
}

/// Where a paginated listing stands: the id of the last entry received, if any.
pub struct PageCursor {
    pub position: Option<u64>,
}

impl PageCursor {
    /// A cursor before the first page.
    pub fn new() -> (c: PageCursor)
        ensures
            c.position is None,
    {
        PageCursor { position: None }
    }

    /// Takes in a page given by the ids of its entries, in the order received: the next page
    /// starts after its last entry. Returns whether another page is to be fetched, which is
    /// exactly when this page was not empty.
    pub fn advance(&mut self, page: &Vec<u64>) -> (more: bool)
        ensures
            more == (page.len() > 0),
            final(self).position == (if page.len() > 0 {
                Some(page@.last())
            } else {
                None::<u64>
            }),
    {
        if page.len() == 0 {
            self.position = None;
            false
        } else {
            self.position = Some(page[page.len() - 1]);
            true
        }
    }
}

/// The votes cast by `users` (one page of them) through the reaction that `request` names, in
/// the users' order.
pub fn votes_for_page(request: &ReactionRequest, users: &Vec<Voter>) -> (votes: Vec<Vote>)
    ensures
        votes.len() == users.len(),
        forall|i: int|
            0 <= i < users.len() ==> {
                &&& (#[trigger] votes[i]).item_id == request.message_id
                &&& votes[i].user_id == users[i].id
                &&& votes[i].voter_display_name@ == users[i].display_name@
                &&& votes[i].emoji@ == emoji_spec(request.reaction_type)
            },
{
    let mut votes: Vec<Vote> = Vec::new();
    let mut i: usize = 0;
    while i < users.len()
        invariant
            i <= users.len(),
            votes.len() == i,
            forall|j: int|
                0 <= j < i ==> {
                    &&& (#[trigger] votes[j]).item_id == request.message_id
                    &&& votes[j].user_id == users[j].id
                    &&& votes[j].voter_display_name@ == users[j].display_name@
                    &&& votes[j].emoji@ == emoji_spec(request.reaction_type)
                },
        decreases users.len() - i,
    {
        votes.push(Vote::new(request.message_id, &users[i], &request.reaction_type));
        i = i + 1;
    }
    votes
}

} // verus!
