//! Discord snowflake identifiers, held as the integers they are.
use vstd::prelude::*;

verus! {

/// The identifier of a Discord channel.
#[derive(Debug, Clone, Copy, PartialEq, Eq, Hash, Structural)]
pub struct ChannelId(pub u64);

/// The identifier of a Discord guild (server).
#[derive(Debug, Clone, Copy, PartialEq, Eq, Hash, Structural)]
pub struct GuildId(pub u64);

/// The identifier of a Discord user.
#[derive(Debug, Clone, Copy, PartialEq, Eq, Hash, Structural)]
pub struct UserId(pub u64);

/// The identifier of a Discord message.
#[derive(Debug, Clone, Copy, PartialEq, Eq, Hash, Structural)]
pub struct MessageId(pub u64);

} // verus!
