//! Which handler an interaction goes to.
use vstd::prelude::*;

use crate::server::error::ServerError;
use crate::text::str_eq;

verus! {

/// The kind of an interaction.
#[derive(Debug, Clone, Copy, PartialEq, Eq, Structural)]
pub enum InteractionKind {
    Ping,
    /// An application command.
    Command,
    /// An autocomplete request of an application command.
    Autocomplete,
    /// A message component.
    Component,
    /// A modal submission.
    Modal,
    /// A kind that this version of Discord's model does not know.
    Unknown,
}

/// The `/daas` subcommands.
#[derive(Debug, Clone, Copy, PartialEq, Eq, Structural)]
pub enum Subcommand {
    Cleanup,
    Disable,
    Enable,
    Export,
    Help,
}

/// Where an interaction goes.
#[derive(Debug, Clone, Copy, PartialEq, Eq, Structural)]
pub enum Route {
    Ping,
    Command(Subcommand),
}

/// The subcommand named `name`, if it is one.
pub open spec fn subcommand_named(name: Seq<char>) -> Option<Subcommand> {
    if name == "cleanup"@ {
        Some(Subcommand::Cleanup)
    } else if name == "disable"@ {
        Some(Subcommand::Disable)
    } else if name == "enable"@ {
        Some(Subcommand::Enable)
    } else if name == "export"@ {
        Some(Subcommand::Export)
    } else if name == "help"@ {
        Some(Subcommand::Help)
    } else {
        None
    }
}

/// Where an interaction of kind `kind` whose command options are named `option_names` goes:
/// pings are answered, commands go to the subcommand their first option names, and anything
/// else is refused.
pub open spec fn route_of(kind: InteractionKind, option_names: Seq<Seq<char>>) -> Result<
    Route,
    ServerError,
> {
    match kind {
        InteractionKind::Ping => Ok(Route::Ping),
        InteractionKind::Command => if option_names.len() == 0 {
            Err(ServerError::UnknownCommand)
        } else {
            match subcommand_named(option_names[0]) {
                Some(sub) => Ok(Route::Command(sub)),
                None => Err(ServerError::UnknownCommand),
            }
        },
        _ => Err(ServerError::UnsupportedInteractionType),
    }
}

/// The characters of each of `names`.
pub open spec fn names_text(names: Seq<String>) -> Seq<Seq<char>> {
    names.map_values(|n: String| n@)
}

/// Routes an interaction of kind `kind` whose command options are named `option_names` (see
/// [`route_of`]).
pub fn route(kind: InteractionKind, option_names: &Vec<String>) -> (res: Result<Route, ServerError>)
    ensures
        res == route_of(kind, names_text(option_names@)),
{
    match kind {
        InteractionKind::Ping => Ok(Route::Ping),
        InteractionKind::Command => {
            if option_names.len() == 0 {
                return Err(ServerError::UnknownCommand);
            }
            let name = option_names[0].as_str();
            assert(name@ == names_text(option_names@)[0]);
            if str_eq(name, "cleanup") {
                Ok(Route::Command(Subcommand::Cleanup))
            } else if str_eq(name, "disable") {
                Ok(Route::Command(Subcommand::Disable))
            } else if str_eq(name, "enable") {
                Ok(Route::Command(Subcommand::Enable))
            } else if str_eq(name, "export") {
                Ok(Route::Command(Subcommand::Export))
            } else if str_eq(name, "help") {
                Ok(Route::Command(Subcommand::Help))
            } else {
                Err(ServerError::UnknownCommand)
            }
        },
        _ => Err(ServerError::UnsupportedInteractionType),
    }
}

} // verus!
