//! The follow-up message posted when an export finishes.
use vstd::prelude::*;

use crate::server::error::{join_lines, lines_text};

verus! {

/// The name of the file an export is attached as.
pub const EXPORT_FILE_NAME: &'static str = "export.sqlite";

/// How a channel without a name is referred to.
pub const UNNAMED_CHANNEL: &'static str = "this channel";

/// The opening of the follow-up for a failed export.
pub const EXPORT_FAILED: &'static str = "daas-bot encountered a problem while performing export:\n\n";

/// How the follow-up refers to the channel: by its name, or as "this channel".
pub fn channel_display_name(name: Option<&str>) -> (r: String)
    ensures
        match name {
            Some(n) => r@ == n@,
            None => r@ == UNNAMED_CHANNEL@,
        },
{
    match name {
        Some(n) => n.to_owned(),
        None => UNNAMED_CHANNEL.to_owned(),
    }
}

/// The follow-up for a successful export of `channel` started at `now` that took `duration`.
pub fn export_success_content(channel: &str, now: &str, duration: &str) -> (r: String)
    ensures
        r@ == "Exported "@ + channel@ + " at "@ + now@ + " in "@ + duration@,
{
    let mut r = "Exported ".to_owned();
    r.append(channel);
    r.append(" at ");
    r.append(now);
    r.append(" in ");
    r.append(duration);
    r
}

/// The follow-up for a failed export: the opening, then the messages of the error and of
/// each error that caused it, one per line.
pub fn export_failure_content(error_lines: &Vec<String>) -> (r: String)
    ensures
        r@ == EXPORT_FAILED@ + lines_text(error_lines@.map_values(|l: String| l@)),
{
    let mut r = EXPORT_FAILED.to_owned();
    let body = join_lines(error_lines);
    r.append(body.as_str());
    r
}

/// The description of the attached export of `channel`, calculated at `now`.
pub fn attachment_description(channel: &str, now: &str) -> (r: String)
    ensures
        r@ == "The items and votes tabulated in "@ + channel@ + ", as calculated at "@ + now@
            + " by Daas Bot"@,
{
    let mut r = "The items and votes tabulated in ".to_owned();
    r.append(channel);
    r.append(", as calculated at ");
    r.append(now);
    r.append(" by Daas Bot");
    r
}

} // verus!
