//! The `/daas` command as registered with Discord.
use vstd::prelude::*;

verus! {

/// A subcommand: its name and description.
pub struct SubcommandDefinition {
    pub name: &'static str,
    pub description: &'static str,
}

/// Where a slash command may be invoked.
#[derive(Debug, Clone, Copy, PartialEq, Eq, Structural)]
pub enum CommandContext {
    /// In a channel of a guild.
    Guild,
    /// In the direct-message channel with the bot.
    BotDm,
    /// In a group or direct-message channel that does not hold the bot.
    PrivateChannel,
}

/// A slash command, the contexts in which it may be invoked, and its subcommands.
pub struct CommandDefinition {
    pub name: &'static str,
    pub description: &'static str,
    pub contexts: Vec<CommandContext>,
    pub subcommands: Vec<SubcommandDefinition>,
}

/// The subcommands of `/daas`, in registration order.
pub open spec fn daas_subcommands() -> Seq<SubcommandDefinition> {
    seq![
        SubcommandDefinition {
            name: "enable",
            description: "enable daas bot to parse and export the current channel",
        },
        SubcommandDefinition {
            name: "disable",
            description: "disable daas bot operation in the current channel",
        },
        SubcommandDefinition {
            name: "export",
            description: "analyze the current channel and export its contents as a sqlite file",
        },
        SubcommandDefinition {
            name: "cleanup",
            description: "remove all but the final export message from this channel",
        },
        SubcommandDefinition {
            name: "help",
            description: "emit a message with usage instructions for daas bot",
        },
    ]
}

/// The `/daas` command: "DAAS Bot Commands", invoked in guilds only, with the subcommands of
/// [`daas_subcommands`].
pub fn daas_command() -> (c: CommandDefinition)
    ensures
        c.name == "daas",
        c.description == "DAAS Bot Commands",
        c.contexts@ == seq![CommandContext::Guild],
        c.subcommands@ == daas_subcommands(),
        c.subcommands.len() == 5,
        c.subcommands@[0].name == "enable" && c.subcommands@[0].description
            == "enable daas bot to parse and export the current channel",
        c.subcommands@[1].name == "disable" && c.subcommands@[1].description
            == "disable daas bot operation in the current channel",
        c.subcommands@[2].name == "export" && c.subcommands@[2].description
            == "analyze the current channel and export its contents as a sqlite file",
        c.subcommands@[3].name == "cleanup" && c.subcommands@[3].description
            == "remove all but the final export message from this channel",
        c.subcommands@[4].name == "help" && c.subcommands@[4].description
            == "emit a message with usage instructions for daas bot",
{
    let mut contexts: Vec<CommandContext> = Vec::new();
    contexts.push(CommandContext::Guild);
    let mut subcommands: Vec<SubcommandDefinition> = Vec::new();
    subcommands.push(
        SubcommandDefinition {
            name: "enable",
            description: "enable daas bot to parse and export the current channel",
        },
    );
    subcommands.push(
        SubcommandDefinition {
            name: "disable",
            description: "disable daas bot operation in the current channel",
        },
    );
    subcommands.push(
        SubcommandDefinition {
            name: "export",
            description: "analyze the current channel and export its contents as a sqlite file",
        },
    );
    subcommands.push(
        SubcommandDefinition {
            name: "cleanup",
            description: "remove all but the final export message from this channel",
        },
    );
    subcommands.push(
        SubcommandDefinition {
            name: "help",
            description: "emit a message with usage instructions for daas bot",
        },
    );
    assert(subcommands@ =~= daas_subcommands());
    assert(contexts@ =~= seq![CommandContext::Guild]);
    CommandDefinition { name: "daas", description: "DAAS Bot Commands", contexts, subcommands }
}

} // verus!
