//! What the database layer shares: the `rusqlite` types it holds, statements with their
//! parameters, and the messages of `rusqlite` and `tokio` errors. The calls that run
//! statements stand beside the tables they read and change (`bot.rs`, `export_calls.rs`).
use vstd::prelude::*;

verus! {

#[verifier::external_type_specification]
#[verifier::external_body]
pub struct ExConnection(rusqlite::Connection);

#[verifier::external_type_specification]
#[verifier::external_body]
pub struct ExRusqliteError(rusqlite::Error);

#[verifier::external_type_specification]
#[verifier::external_body]
pub struct ExJoinError(tokio::task::JoinError);

/// A value bound to a named statement parameter.
#[derive(Debug, PartialEq, Eq)]
pub enum SqlValue {
    Integer(i64),
    Text(String),
    Null,
}

/// A named statement parameter (such as `:guild_id`) and its value.
#[derive(Debug, PartialEq, Eq)]
pub struct SqlParam {
    pub name: &'static str,
    pub value: SqlValue,
}

/// Why running a statement failed: preparing it, or running it.
pub enum StatementError {
    Prepare(rusqlite::Error),
    Execute(rusqlite::Error),
}

/// The integer that `p` holds (zero for another value).
pub open spec fn integer_of(p: SqlParam) -> int {
    match p.value {
        SqlValue::Integer(v) => v as int,
        _ => 0,
    }
}

/// Whether the parameters of `plan` are integers named `names`, in order.
pub open spec fn has_integer_params(plan: &SqlPlan, names: Seq<&'static str>) -> bool {
    &&& plan.params.len() == names.len()
    &&& forall|i: int|
        0 <= i < names.len() ==> (#[trigger] plan.params@[i]).name == names[i]
            && plan.params@[i].value is Integer
}

/// A statement and the named parameters it is run with.
pub struct SqlPlan {
    pub sql: &'static str,
    pub params: Vec<SqlParam>,
}

/// The messages (`Display`) of a `rusqlite::Error` and of the errors that caused it,
/// outermost first. Nothing is claimed of the text.
#[verifier::external_body]
pub(crate) fn rusqlite_error_lines(e: &rusqlite::Error) -> Vec<String> {
    let mut lines = Vec::new();
    let mut cur: Option<&dyn std::error::Error> = Some(e);
    while let Some(head) = cur {
        lines.push(head.to_string());
        cur = head.source();
    }
    lines
}

/// The messages (`Display`) of a `tokio::task::JoinError` and of the errors that caused it,
/// outermost first. Nothing is claimed of the text.
#[verifier::external_body]
pub(crate) fn join_error_lines(e: &tokio::task::JoinError) -> Vec<String> {
    let mut lines = Vec::new();
    let mut cur: Option<&dyn std::error::Error> = Some(e);
    while let Some(head) = cur {
        lines.push(head.to_string());
        cur = head.source();
    }
    lines
}

} // verus!
