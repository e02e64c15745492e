//! What the bot does for each `/daas` subcommand.
use vstd::prelude::*;

use crate::ids::{ChannelId, GuildId, UserId};
use crate::server::error::ServerError;
use crate::server::help::HELP_MESSAGE;
use crate::server::into_response::{Defer, Message, Pong, Reply, ResponseMessage};
use crate::sql::bot::{
    after_enable, bits_as_i64_spec_of_user, channel_is_enabled, disable_channel, enable_channel,
    enabled_channels, pair_key,
};

verus! {

/// `serenity::model::Permissions::manage_guild` on the permission bits `bits`: whether the
/// "Manage Guild" permission (bit 5) is set.
#[verifier::external_body]
fn permissions_manage_guild(bits: u64) -> (r: bool)
    ensures
        r == (bits & 0x20 == 0x20),
{
    serenity::all::Permissions::from_bits_retain(bits).manage_guild()
}

/// What the bot reads of the member who invoked a command.
pub struct MemberFacts {
    /// The member's permission bits in the channel, when Discord sent them.
    pub permissions: Option<u64>,
}

/// What the bot reads of a command interaction.
pub struct CommandFacts {
    pub guild_id: Option<GuildId>,
    pub channel_id: ChannelId,
    pub user_id: UserId,
    /// The invoking member, when the command was invoked in a guild.
    pub member: Option<MemberFacts>,
}

/// The input error for an interaction without a member.
pub const NO_MEMBER: &'static str = "no interaction member";

/// The input error for a member without permissions.
pub const NO_PERMISSIONS: &'static str = "no member permissions";

/// The input error for an interaction outside a guild.
pub const NO_GUILD: &'static str = "no guild id";

/// The reply to a user who may not do what they asked.
pub const PERMISSION_DENIED: &'static str = "permission denied";

/// The reply when a channel has just been enabled.
pub const ENABLED: &'static str = "DAAS enabled for this channel. Run `/daas export` to perform an export.";

/// The reply when a channel was enabled already.
pub const ALREADY_ENABLED: &'static str = "DAAS was already enabled for this channel";

/// The reply when a channel has just been disabled.
pub const DISABLED: &'static str = "DAAS disabled for this channel";

/// The reply when a channel was not enabled.
pub const NOT_ENABLED: &'static str = "DAAS was not enabled for this channel";

/// Whether `m` is a message with text `text`, seen only by the invoking user when
/// `ephemeral`.
pub open spec fn is_message(m: ResponseMessage, ephemeral: bool, text: &str) -> bool {
    m.ephemeral == ephemeral && (m.content matches Some(c) && c@ == text@)
}

/// Whether the invoking member may manage the guild: `Ok` exactly when Discord sent the
/// member and its permissions, and then whether they include "Manage Guild".
pub open spec fn may_manage_guild_spec(cmd: &CommandFacts) -> Result<bool, &'static str> {
    match cmd.member {
        None => Err(NO_MEMBER),
        Some(member) => match member.permissions {
            None => Err(NO_PERMISSIONS),
            Some(bits) => Ok(bits & 0x20 == 0x20),
        },
    }
}

/// Ensure that the user who created the interaction has "manage guild" permissions.
pub fn may_manage_guild(cmd: &CommandFacts) -> (res: Result<bool, ServerError>)
    ensures
        match may_manage_guild_spec(cmd) {
            Ok(b) => res == Ok::<bool, ServerError>(b),
            Err(what) => res matches Err(ServerError::MalformedInput(w)) && w == what,
        },
{
    match &cmd.member {
        None => Err(ServerError::MalformedInput(NO_MEMBER)),
        Some(member) => match member.permissions {
            None => Err(ServerError::MalformedInput(NO_PERMISSIONS)),
            Some(bits) => Ok(permissions_manage_guild(bits)),
        },
    }
}

/// The guild the command was invoked in.
fn guild_of(cmd: &CommandFacts) -> (res: Result<GuildId, ServerError>)
    ensures
        match cmd.guild_id {
            Some(g) => res matches Ok(r) && r == g,
            None => res matches Err(ServerError::MalformedInput(w)) && w == NO_GUILD,
        },
{
    match cmd.guild_id {
        Some(g) => Ok(g),
        None => Err(ServerError::MalformedInput(NO_GUILD)),
    }
}

/// The reply to a user without the permission to do what they asked.
pub fn permission_denied() -> (m: Message)
    ensures
        is_message(m.0, true, PERMISSION_DENIED),
{
    Message(ResponseMessage::with_content(true, PERMISSION_DENIED))
}

/// The reply once `/daas enable` has been carried out: a success message for everyone when the
/// channel was newly enabled, a private note when it was enabled already.
pub fn enable_reply(newly_enabled: bool) -> (m: Message)
    ensures
        newly_enabled ==> is_message(m.0, false, ENABLED),
        !newly_enabled ==> is_message(m.0, true, ALREADY_ENABLED),
{
    if newly_enabled {
        Message(ResponseMessage::with_content(false, ENABLED))
    } else {
        Message(ResponseMessage::with_content(true, ALREADY_ENABLED))
    }
}

/// Whether `m` is the reply once `/daas enable` has been carried out (see [`enable_reply`]).
pub open spec fn is_enable_reply(m: Message, newly_enabled: bool) -> bool {
    if newly_enabled {
        is_message(m.0, false, ENABLED)
    } else {
        is_message(m.0, true, ALREADY_ENABLED)
    }
}

/// Enable the export command for a channel.
///
/// 1. Ensure the user has appropriate channel-management permission
/// 2. Add the `(guild, channel)` pair to the local DB, recording the user ([`enable_channel`])
/// 3. Respond with success message (see [`enable_reply`])
///
/// The local database is touched only in step 2.
pub fn enable(cmd: &CommandFacts, connection: &mut rusqlite::Connection) -> (res: Result<
    Message,
    ServerError,
>)
    ensures
        match may_manage_guild_spec(cmd) {
            Err(what) => res matches Err(ServerError::MalformedInput(w)) && w == what,
            Ok(false) => res matches Ok(m) && is_message(m.0, true, PERMISSION_DENIED),
            Ok(true) => match cmd.guild_id {
                None => res matches Err(ServerError::MalformedInput(w)) && w == NO_GUILD,
                Some(g) => match res {
                    Ok(m) => enabled_channels(*old(connection)) matches Some(t) && is_enable_reply(
                        m,
                        !t.contains_key(pair_key(g, cmd.channel_id)),
                    ) && enabled_channels(*final(connection)) == Some(
                        after_enable(
                            t,
                            pair_key(g, cmd.channel_id),
                            bits_as_i64_spec_of_user(cmd.user_id),
                        ),
                    ),
                    Err(e) => e is LocalDb,
                },
            },
        },
        !(may_manage_guild_spec(cmd) == Ok::<bool, &'static str>(true) && cmd.guild_id is Some)
            || res is Err ==> enabled_channels(*final(connection)) == enabled_channels(
            *old(connection),
        ),
{
    if !may_manage_guild(cmd)? {
        return Ok(permission_denied());
    }
    let guild = guild_of(cmd)?;
    match enable_channel(connection, guild, cmd.channel_id, cmd.user_id) {
        Ok(newly_enabled) => Ok(enable_reply(newly_enabled)),
        Err(e) => Err(ServerError::LocalDb(e)),
    }
}

/// The reply once `/daas disable` has been carried out: a success message for everyone when the
/// channel was enabled, a private note when it was not.
pub fn disable_reply(was_enabled: bool) -> (m: Message)
    ensures
        was_enabled ==> is_message(m.0, false, DISABLED),
        !was_enabled ==> is_message(m.0, true, NOT_ENABLED),
{
    if was_enabled {
        Message(ResponseMessage::with_content(false, DISABLED))
    } else {
        Message(ResponseMessage::with_content(true, NOT_ENABLED))
    }
}

/// Whether `m` is the reply once `/daas disable` has been carried out (see [`disable_reply`]).
pub open spec fn is_disable_reply(m: Message, was_enabled: bool) -> bool {
    if was_enabled {
        is_message(m.0, false, DISABLED)
    } else {
        is_message(m.0, true, NOT_ENABLED)
    }
}

/// Disable the export command for a channel.
///
/// 1. Ensure the user has appropriate channel-management permission
/// 2. Remove the `(guild, channel)` pair from the local DB ([`disable_channel`])
/// 3. Respond with success message (see [`disable_reply`])
///
/// The local database is touched only in step 2.
pub fn disable(cmd: &CommandFacts, connection: &mut rusqlite::Connection) -> (res: Result<
    Message,
    ServerError,
>)
    ensures
        match may_manage_guild_spec(cmd) {
            Err(what) => res matches Err(ServerError::MalformedInput(w)) && w == what,
            Ok(false) => res matches Ok(m) && is_message(m.0, true, PERMISSION_DENIED),
            Ok(true) => match cmd.guild_id {
                None => res matches Err(ServerError::MalformedInput(w)) && w == NO_GUILD,
                Some(g) => match res {
                    Ok(m) => enabled_channels(*old(connection)) matches Some(t) && is_disable_reply(
                        m,
                        t.contains_key(pair_key(g, cmd.channel_id)),
                    ) && enabled_channels(*final(connection)) == Some(
                        t.remove(pair_key(g, cmd.channel_id)),
                    ),
                    Err(e) => e is LocalDb,
                },
            },
        },
        !(may_manage_guild_spec(cmd) == Ok::<bool, &'static str>(true) && cmd.guild_id is Some)
            || res is Err ==> enabled_channels(*final(connection)) == enabled_channels(
            *old(connection),
        ),
{
    if !may_manage_guild(cmd)? {
        return Ok(permission_denied());
    }
    let guild = guild_of(cmd)?;
    match disable_channel(connection, guild, cmd.channel_id) {
        Ok(was_enabled) => Ok(disable_reply(was_enabled)),
        Err(e) => Err(ServerError::LocalDb(e)),
    }
}

/// Whether `r` is the reply to `/daas cleanup` once it is known whether the channel is
/// enabled (see [`cleanup_reply`]).
pub open spec fn is_cleanup_reply(r: Reply, enabled: bool) -> bool {
    if enabled {
        r matches Reply::Defer(d) && d.0.ephemeral && d.0.content is None
    } else {
        r matches Reply::Message(m) && is_message(m.0, true, PERMISSION_DENIED)
    }
}

/// The reply to `/daas cleanup` once it is known whether the channel is enabled: a refusal
/// unless it is, and otherwise a deferral, seen only by the invoking user, while the stale
/// exports are deleted.
pub fn cleanup_reply(enabled: bool) -> (r: Reply)
    ensures
        !enabled ==> (r matches Reply::Message(m) && is_message(m.0, true, PERMISSION_DENIED)),
        enabled ==> (r matches Reply::Defer(d) && d.0.ephemeral && d.0.content is None),
{
    if !enabled {
        Reply::Message(permission_denied())
    } else {
        Reply::Defer(Defer(ResponseMessage { ephemeral: true, content: None }))
    }
}

/// Delete all but the most recent export from this channel.
///
/// 1. verify that this is an enabled channel ([`channel_is_enabled`]).
/// 2. respond with a deferral; the caller then deletes the exports that
///    [`crate::server::cleanup::exports_to_delete`] picks, and reports how many it deleted.
pub fn cleanup(cmd: &CommandFacts, connection: &rusqlite::Connection) -> (res: Result<
    Reply,
    ServerError,
>)
    ensures
        cmd.guild_id is None ==> (res matches Err(ServerError::MalformedInput(w)) && w == NO_GUILD),
        cmd.guild_id matches Some(g) ==> match res {
            Ok(r) => enabled_channels(*connection) matches Some(t) && is_cleanup_reply(
                r,
                t.contains_key(pair_key(g, cmd.channel_id)),
            ),
            Err(e) => e is LocalDb,
        },
{
    let guild = guild_of(cmd)?;
    match channel_is_enabled(connection, guild, cmd.channel_id) {
        Ok(enabled) => Ok(cleanup_reply(enabled)),
        Err(e) => Err(ServerError::LocalDb(e)),
    }
}

/// Whether `r` is the reply to `/daas export` once it is known whether the channel is enabled
/// (see [`export_reply`]).
pub open spec fn is_export_reply(r: Reply, enabled: bool) -> bool {
    if enabled {
        r matches Reply::Defer(d) && !d.0.ephemeral && d.0.content is None
    } else {
        r matches Reply::Message(m) && is_message(m.0, true, PERMISSION_DENIED)
    }
}

/// The reply to `/daas export` once it is known whether the channel is enabled: a refusal
/// unless it is, and otherwise a deferral while the export runs.
pub fn export_reply(enabled: bool) -> (r: Reply)
    ensures
        !enabled ==> (r matches Reply::Message(m) && is_message(m.0, true, PERMISSION_DENIED)),
        enabled ==> (r matches Reply::Defer(d) && !d.0.ephemeral && d.0.content is None),
{
    if !enabled {
        Reply::Message(permission_denied())
    } else {
        Reply::Defer(Defer(ResponseMessage::new()))
    }
}

/// Export the data gathered in this channel to an sqlite file.
///
/// 1. verify that this is an enabled channel ([`channel_is_enabled`]).
/// 2. respond with a deferral; the caller then runs the export and posts its result.
///
/// An export is deferred only for a channel that the local database holds as enabled.
pub fn export(cmd: &CommandFacts, connection: &rusqlite::Connection) -> (res: Result<
    Reply,
    ServerError,
>)
    ensures
        cmd.guild_id is None ==> (res matches Err(ServerError::MalformedInput(w)) && w == NO_GUILD),
        cmd.guild_id matches Some(g) ==> match res {
            Ok(r) => enabled_channels(*connection) matches Some(t) && is_export_reply(
                r,
                t.contains_key(pair_key(g, cmd.channel_id)),
            ),
            Err(e) => e is LocalDb,
        },
{
    let guild = guild_of(cmd)?;
    match channel_is_enabled(connection, guild, cmd.channel_id) {
        Ok(enabled) => Ok(export_reply(enabled)),
        Err(e) => Err(ServerError::LocalDb(e)),
    }
}

/// Immediately return a help message giving an overview of what the commands are and what
/// each does.
pub fn help() -> (res: Result<Message, ServerError>)
    ensures
        res matches Ok(m) && is_message(m.0, true, HELP_MESSAGE),
{
    Ok(Message(ResponseMessage::with_content(true, HELP_MESSAGE)))
}

/// Immediately respond to a ping with a pong.
pub fn ping() -> (res: Result<Pong, ServerError>)
    ensures
        res is Ok,
{
    Ok(Pong)
}

} // verus!
