//! Errors the server answers an interaction with.
use vstd::prelude::*;

use crate::sql::error::{sql_error_head, SqlError};

verus! {

/// Why an interaction could not be handled.
pub enum ServerError {
    /// The security request headers did not validate.
    Validation,
    /// The input was malformed; the text says how.
    MalformedInput(&'static str),
    /// The interaction is of a type the bot does not handle.
    UnsupportedInteractionType,
    /// The command is not one of the bot's.
    UnknownCommand,
    /// The local database failed.
    LocalDb(SqlError),
}

impl From<SqlError> for ServerError {
    fn from(e: SqlError) -> ServerError {
        ServerError::LocalDb(e)
    }
}

impl vstd::std_specs::convert::FromSpecImpl<SqlError> for ServerError {
    open spec fn obeys_from_spec() -> bool {
        true
    }

    open spec fn from_spec(v: SqlError) -> ServerError {
        ServerError::LocalDb(v)
    }
}

/// The HTTP status with which an error is answered: 401 when the request did not validate,
/// 400 for a bad request, 500 when the local database failed.
pub open spec fn status_code_spec(e: &ServerError) -> u16 {
    match e {
        ServerError::Validation => 401,
        ServerError::MalformedInput(_) => 400,
        ServerError::UnsupportedInteractionType => 400,
        ServerError::UnknownCommand => 400,
        ServerError::LocalDb(_) => 500,
    }
}

/// The message of the outermost layer of an error.
pub open spec fn server_error_head(e: &ServerError) -> Seq<char> {
    match e {
        ServerError::Validation => "security request header validation failed"@,
        ServerError::MalformedInput(what) => "malformed input: "@ + what@,
        ServerError::UnsupportedInteractionType => "unsupported interaction type"@,
        ServerError::UnknownCommand => "unknown command"@,
        ServerError::LocalDb(_) => "interacting with the local database"@,
    }
}

/// `lines`, each followed by a line break.
pub open spec fn lines_text(lines: Seq<Seq<char>>) -> Seq<char>
    decreases lines.len(),
{
    if lines.len() == 0 {
        Seq::empty()
    } else {
        lines_text(lines.drop_last()) + lines.last() + seq!['\n']
    }
}

/// The text of `lines`, each followed by a line break.
pub fn join_lines(lines: &Vec<String>) -> (text: String)
    ensures
        text@ == lines_text(lines@.map_values(|l: String| l@)),
{
    let mut text = String::new();
    let mut i: usize = 0;
    while i < lines.len()
        invariant
            i <= lines.len(),
            text@ == lines_text(lines@.map_values(|l: String| l@).take(i as int)),
        decreases lines.len() - i,
    {
        text.append(lines[i].as_str());
        text.append("\n");
        proof {
            let all = lines@.map_values(|l: String| l@);
            assert(all.take(i + 1).drop_last() =~= all.take(i as int));
            reveal_strlit("\n");
        }
        i = i + 1;
    }
    assert(lines@.map_values(|l: String| l@).take(lines.len() as int) =~= lines@.map_values(
        |l: String| l@,
    ));
    text
}

impl ServerError {
    /// The HTTP status code of the response for this error.
    pub fn status_code(&self) -> (code: u16)
        ensures
            code == status_code_spec(self),
    {
        match self {
            ServerError::Validation => 401,
            ServerError::MalformedInput(_) | ServerError::UnsupportedInteractionType
            | ServerError::UnknownCommand => 400,
            ServerError::LocalDb(_) => 500,
        }
    }

    /// The messages of this error and of each error that caused it, outermost first.
    pub fn messages(&self) -> (lines: Vec<String>)
        ensures
            lines.len() >= 1,
            lines[0]@ == server_error_head(self),
            self matches ServerError::LocalDb(e) ==> lines.len() >= 2 && lines[1]@
                == sql_error_head(&e),
            !(self is LocalDb) ==> lines.len() == 1,
    {
        let mut lines: Vec<String> = Vec::new();
        match self {
            ServerError::Validation => lines.push(
                "security request header validation failed".to_owned(),
            ),
            ServerError::MalformedInput(what) => {
                let mut line = "malformed input: ".to_owned();
                line.append(what);
                lines.push(line);
            },
            ServerError::UnsupportedInteractionType => lines.push(
                "unsupported interaction type".to_owned(),
            ),
            ServerError::UnknownCommand => lines.push("unknown command".to_owned()),
            ServerError::LocalDb(e) => {
                lines.push("interacting with the local database".to_owned());
                let causes = e.messages();
                let mut i: usize = 0;
                while i < causes.len()
                    invariant
                        i <= causes.len(),
                        causes.len() >= 1,
                        causes[0]@ == sql_error_head(e),
                        lines.len() == i + 1,
                        lines[0]@ == "interacting with the local database"@,
                        i >= 1 ==> lines[1]@ == sql_error_head(e),
                    decreases causes.len() - i,
                {
                    lines.push(causes[i].clone());
                    i = i + 1;
                }
            },
        }
        lines
    }

    /// The body of the response for this error: its messages, one per line.
    pub fn error_body(&self) -> (body: String)
        ensures
            !(self is LocalDb) ==> body@ == server_error_head(self) + seq!['\n'],
            exists|lines: Seq<Seq<char>>|
                lines.len() >= 1 && lines[0] == server_error_head(self) && body@ == lines_text(
                    lines,
                ) && (self matches ServerError::LocalDb(e) ==> lines.len() >= 2 && lines[1]
                    == sql_error_head(&e)),
    {
        let lines = self.messages();
        let body = join_lines(&lines);
        let ghost all = lines@.map_values(|l: String| l@);
        assert(all[0] == server_error_head(self));
        proof {
            if self is LocalDb {
                assert(all[1] == lines@[1]@);
            }
            if !(self is LocalDb) {
                assert(all.len() == 1);
                assert(all.last() == all[0]);
                assert(all.drop_last() =~= Seq::<Seq<char>>::empty());
                assert(lines_text(all.drop_last()) =~= Seq::<char>::empty());
                assert(lines_text(all) == lines_text(all.drop_last()) + all.last() + seq!['\n']);
                assert(Seq::<char>::empty() + all[0] + seq!['\n'] =~= all[0] + seq!['\n']);
            }
        }
        body
    }
}

} // verus!
