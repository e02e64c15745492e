//! Errors of the database layer.
use vstd::prelude::*;

use crate::sql::calls::{join_error_lines, rusqlite_error_lines};

verus! {

/// An error of the database layer.
pub enum SqlError {
    /// A Sqlite call failed; `context` says what was being done.
    Rusqlite { context: &'static str, source: rusqlite::Error },
    /// Creating or joining a blocking task failed.
    Blocking(tokio::task::JoinError),
}

/// The message of the outermost layer of an error.
pub open spec fn sql_error_head(e: &SqlError) -> Seq<char> {
    match e {
        SqlError::Rusqlite { context, .. } => context@,
        SqlError::Blocking(_) => BLOCKING_MESSAGE@,
    }
}

/// The message of [`SqlError::Blocking`].
pub const BLOCKING_MESSAGE: &'static str = "creating or joining a blocking task failed";

impl SqlError {
    /// The error for a Sqlite failure that happened while doing `context`.
    pub fn sql(context: &'static str, source: rusqlite::Error) -> (e: SqlError)
        ensures
            e matches SqlError::Rusqlite { context: c, .. } && c == context,
    {
        SqlError::Rusqlite { context, source }
    }

    /// The messages of this error and of each error that caused it, outermost first.
    pub fn messages(&self) -> (lines: Vec<String>)
        ensures
            lines.len() >= 1,
            lines[0]@ == sql_error_head(self),
    {
        let mut lines: Vec<String> = Vec::new();
        let causes = match self {
            SqlError::Rusqlite { context, source } => {
                lines.push((*context).to_owned());
                rusqlite_error_lines(source)
            },
            SqlError::Blocking(source) => {
                lines.push(BLOCKING_MESSAGE.to_owned());
                join_error_lines(source)
            },
        };
        let mut i: usize = 0;
        while i < causes.len()
            invariant
                i <= causes.len(),
                lines.len() == i + 1,
                lines[0]@ == sql_error_head(self),
            decreases causes.len() - i,
        {
            lines.push(causes[i].clone());
            i = i + 1;
        }
        lines
    }
}

} // verus!
