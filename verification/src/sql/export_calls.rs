//! The exported database as the library sees it: its tables, named as collections, and the
//! calls into `rusqlite` that read and change them.
//!
//! Each table is read through the connection that holds it; a table that does not exist reads
//! as empty. An export database is fresh and in memory, and only the calls below touch it.
//! What a failed statement leaves behind is not stated: inside a transaction, some failures
//! roll the whole transaction back.
use vstd::multiset::Multiset;
use vstd::prelude::*;

use crate::sql::calls::{integer_of, SqlParam, SqlPlan, SqlValue, StatementError};
use crate::sql::export::{
    ADD_ITEM_QUERY, ADD_VOTE_QUERY, ENSURE_CATEGORY_QUERY, ENSURE_TAG_ASSOCIATION_QUERY,
    ENSURE_TAG_QUERY, ENSURE_USER_QUERY, EXPORT_SCHEMA, VACUUM_INTO_QUERY,
};

verus! {

/// Whether [`EXPORT_SCHEMA`] has been applied to `db`: its tables exist and its foreign keys
/// are enforced.
pub uninterp spec fn export_schema_applied(db: rusqlite::Connection) -> bool;

/// The `users` table: display name by user id.
pub uninterp spec fn export_users(db: rusqlite::Connection) -> Map<int, Seq<char>>;

/// The `items` table: by item id, `(posted_by, title, description, created, edited)`.
pub uninterp spec fn export_items(db: rusqlite::Connection) -> Map<
    int,
    (int, Seq<char>, Seq<char>, Seq<char>, Seq<char>),
>;

/// The `tags` table: description by tag id.
pub uninterp spec fn export_tags(db: rusqlite::Connection) -> Map<int, Seq<char>>;

/// The `tag_associations` table: `(item_id, tag_id)` pairs.
pub uninterp spec fn export_tag_links(db: rusqlite::Connection) -> Set<(int, int)>;

/// The `categories` table: emoji by category id.
pub uninterp spec fn export_categories(db: rusqlite::Connection) -> Map<int, Seq<char>>;

/// The `votes` table: its `(item_id, user_id, category_id)` rows.
pub uninterp spec fn export_votes(db: rusqlite::Connection) -> Multiset<(int, int, int)>;

/// All of an export database's tables.
#[verifier::ext_equal]
pub struct ExportTables {
    pub schema: bool,
    pub users: Map<int, Seq<char>>,
    pub items: Map<int, (int, Seq<char>, Seq<char>, Seq<char>, Seq<char>)>,
    pub tags: Map<int, Seq<char>>,
    pub links: Set<(int, int)>,
    pub categories: Map<int, Seq<char>>,
    pub votes: Multiset<(int, int, int)>,
}

/// The tables of `db`.
pub open spec fn export_tables(db: rusqlite::Connection) -> ExportTables {
    ExportTables {
        schema: export_schema_applied(db),
        users: export_users(db),
        items: export_items(db),
        tags: export_tags(db),
        links: export_tag_links(db),
        categories: export_categories(db),
        votes: export_votes(db),
    }
}

/// `t` with `schema` replaced.
pub open spec fn with_schema(t: ExportTables, schema: bool) -> ExportTables {
    ExportTables { schema, ..t }
}

/// `t` with `users` replaced.
pub open spec fn with_users(t: ExportTables, users: Map<int, Seq<char>>) -> ExportTables {
    ExportTables { users, ..t }
}

/// `t` with `items` replaced.
pub open spec fn with_items(
    t: ExportTables,
    items: Map<int, (int, Seq<char>, Seq<char>, Seq<char>, Seq<char>)>,
) -> ExportTables {
    ExportTables { items, ..t }
}

/// `t` with `tags` replaced.
pub open spec fn with_tags(t: ExportTables, tags: Map<int, Seq<char>>) -> ExportTables {
    ExportTables { tags, ..t }
}

/// `t` with `links` replaced.
pub open spec fn with_links(t: ExportTables, links: Set<(int, int)>) -> ExportTables {
    ExportTables { links, ..t }
}

/// `t` with `categories` replaced.
pub open spec fn with_categories(t: ExportTables, categories: Map<int, Seq<char>>) -> ExportTables {
    ExportTables { categories, ..t }
}

/// `t` with `votes` replaced.
pub open spec fn with_votes(t: ExportTables, votes: Multiset<(int, int, int)>) -> ExportTables {
    ExportTables { votes, ..t }
}

/// Whether some key of `m` holds `v`.
pub open spec fn holds_value(m: Map<int, Seq<char>>, v: Seq<char>) -> bool {
    exists|k: int| m.contains_key(k) && m[k] == v
}

/// Whether a table `after`, whose rows are unique by value, results from ensuring the value `v`
/// in `before` and answering `id`: the row that held `v` already, untouched, or else a new row
/// under a fresh id.
pub open spec fn value_ensured(
    before: Map<int, Seq<char>>,
    after: Map<int, Seq<char>>,
    v: Seq<char>,
    id: int,
) -> bool {
    if holds_value(before, v) {
        before.contains_key(id) && before[id] == v && after == before
    } else {
        !before.contains_key(id) && after == before.insert(id, v)
    }
}

/// The text that `p` holds (nothing for another value).
pub open spec fn text_of(p: SqlParam) -> Seq<char> {
    match p.value {
        SqlValue::Text(t) => t@,
        _ => Seq::empty(),
    }
}

/// Whether the parameters of `plan` are named `names`, in order, each an integer where
/// `integers` says so and a text otherwise.
pub open spec fn has_params(plan: &SqlPlan, names: Seq<&'static str>, integers: Seq<bool>) -> bool {
    &&& plan.params.len() == names.len()
    &&& integers.len() == names.len()
    &&& forall|i: int|
        0 <= i < names.len() ==> (#[trigger] plan.params@[i]).name == names[i] && (if integers[i] {
            plan.params@[i].value is Integer
        } else {
            plan.params@[i].value is Text
        })
}

/// The integer of the parameter at `i` of `plan`.
pub open spec fn int_arg(plan: &SqlPlan, i: int) -> int {
    integer_of(plan.params@[i])
}

/// The text of the parameter at `i` of `plan`.
pub open spec fn text_arg(plan: &SqlPlan, i: int) -> Seq<char> {
    text_of(plan.params@[i])
}

/// `rusqlite::Connection::open_in_memory`: a new, empty, in-memory database, without tables.
#[verifier::external_body]
pub(crate) fn open_in_memory() -> (r: Result<rusqlite::Connection, rusqlite::Error>)
    ensures
        r matches Ok(c) ==> !export_schema_applied(c),
        r matches Ok(c) ==> export_users(c).dom().is_empty(),
        r matches Ok(c) ==> export_items(c).dom().is_empty(),
        r matches Ok(c) ==> export_tags(c).dom().is_empty(),
        r matches Ok(c) ==> export_tag_links(c).is_empty(),
        r matches Ok(c) ==> export_categories(c).dom().is_empty(),
        r matches Ok(c) ==> export_votes(c).len() == 0,
{
    rusqlite::Connection::open_in_memory()
}

/// `rusqlite::Connection::execute_batch` of [`EXPORT_SCHEMA`]: it creates the tables, failing
/// if one exists already, and turns on foreign-key enforcement.
#[verifier::external_body]
pub(crate) fn run_export_schema(db: &mut rusqlite::Connection, schema: &str) -> (r: Result<
    (),
    rusqlite::Error,
>)
    requires
        schema == EXPORT_SCHEMA,
    ensures
        r is Ok ==> export_tables(*final(db)) == with_schema(export_tables(*old(db)), true),
{
    db.execute_batch(schema)
}

/// `rusqlite::Connection::execute_batch` of `BEGIN`, `COMMIT` or `ROLLBACK`. Beginning or
/// committing a transaction changes no table as read through the connection; what a rollback
/// gives back is not stated.
#[verifier::external_body]
pub(crate) fn run_transaction_control(db: &mut rusqlite::Connection, sql: &str) -> (r: Result<
    (),
    rusqlite::Error,
>)
    requires
        sql == BEGIN_TRANSACTION || sql == COMMIT_TRANSACTION || sql == ROLLBACK_TRANSACTION,
    ensures
        sql != ROLLBACK_TRANSACTION && r is Ok ==> export_tables(*final(db)) == export_tables(
            *old(db),
        ),
{
    db.execute_batch(sql)
}

/// Begins a transaction.
pub const BEGIN_TRANSACTION: &'static str = "BEGIN";

/// Commits the transaction.
pub const COMMIT_TRANSACTION: &'static str = "COMMIT";

/// Rolls the transaction back.
pub const ROLLBACK_TRANSACTION: &'static str = "ROLLBACK";

/// `prepare_cached` then `Statement::execute` of [`ENSURE_USER_QUERY`] (`INSERT OR IGNORE`
/// keyed by the user id): adds the user with its display name unless the id is present, and
/// changes one row exactly when it adds it.
#[verifier::external_body]
pub(crate) fn run_ensure_user(db: &mut rusqlite::Connection, plan: &SqlPlan) -> (r: Result<
    usize,
    StatementError,
>)
    requires
        plan.sql == ENSURE_USER_QUERY,
        has_params(plan, seq![":user_id", ":display_name"], seq![true, false]),
    ensures
        r matches Ok(rows) ==> if export_users(*old(db)).contains_key(int_arg(plan, 0)) {
            rows == 0 && export_tables(*final(db)) == export_tables(*old(db))
        } else {
            rows == 1 && export_tables(*final(db)) == with_users(
                export_tables(*old(db)),
                export_users(*old(db)).insert(int_arg(plan, 0), text_arg(plan, 1)),
            )
        },
{
    let mut stmt = db.prepare_cached(plan.sql).map_err(StatementError::Prepare)?;
    let named: Vec<(&str, rusqlite::types::Value)> = plan.params.iter().map(|p| (p.name, match &p.value {
        SqlValue::Integer(i) => rusqlite::types::Value::Integer(*i),
        SqlValue::Text(s) => rusqlite::types::Value::Text(s.clone()),
        SqlValue::Null => rusqlite::types::Value::Null,
    })).collect();
    stmt.execute(named.as_slice()).map_err(StatementError::Execute)
}

/// `prepare_cached` then `Statement::query_one` of [`ADD_ITEM_QUERY`] (`INSERT ... RETURNING
/// id`): adds the item under the given id, which must be new, and answers that id. With the
/// schema applied, the poster must be a user.
#[verifier::external_body]
pub(crate) fn run_add_item(db: &mut rusqlite::Connection, plan: &SqlPlan) -> (r: Result<
    i64,
    StatementError,
>)
    requires
        plan.sql == ADD_ITEM_QUERY,
        has_params(
            plan,
            seq![":id", ":posted_by", ":title", ":description", ":created", ":edited"],
            seq![true, true, false, false, false, false],
        ),
    ensures
        r matches Ok(id) ==> id == int_arg(plan, 0) && !export_items(*old(db)).contains_key(id as int)
            && export_tables(*final(db)) == with_items(
            export_tables(*old(db)),
            export_items(*old(db)).insert(
                id as int,
                (
                    int_arg(plan, 1),
                    text_arg(plan, 2),
                    text_arg(plan, 3),
                    text_arg(plan, 4),
                    text_arg(plan, 5),
                ),
            ),
        ) && (export_schema_applied(*old(db)) ==> export_users(*old(db)).contains_key(
            int_arg(plan, 1),
        )),
{
    let mut stmt = db.prepare_cached(plan.sql).map_err(StatementError::Prepare)?;
    let named: Vec<(&str, rusqlite::types::Value)> = plan.params.iter().map(|p| (p.name, match &p.value {
        SqlValue::Integer(i) => rusqlite::types::Value::Integer(*i),
        SqlValue::Text(s) => rusqlite::types::Value::Text(s.clone()),
        SqlValue::Null => rusqlite::types::Value::Null,
    })).collect();
    stmt.query_one(named.as_slice(), |row| row.get(0)).map_err(StatementError::Execute)
}

/// `prepare_cached` then `Statement::query_one` of [`ENSURE_TAG_QUERY`] (`INSERT ... ON CONFLICT
/// (description) DO UPDATE ... RETURNING id`, descriptions being unique): answers the id of the
/// tag with that description, adding it under a fresh id if there is none.
#[verifier::external_body]
pub(crate) fn run_ensure_tag(db: &mut rusqlite::Connection, plan: &SqlPlan) -> (r: Result<
    i64,
    StatementError,
>)
    requires
        plan.sql == ENSURE_TAG_QUERY,
        has_params(plan, seq![":description"], seq![false]),
    ensures
        r matches Ok(id) ==> value_ensured(
            export_tags(*old(db)),
            export_tags(*final(db)),
            text_arg(plan, 0),
            id as int,
        ) && export_tables(*final(db)) == with_tags(export_tables(*old(db)), export_tags(*final(db))),
{
    let mut stmt = db.prepare_cached(plan.sql).map_err(StatementError::Prepare)?;
    let named: Vec<(&str, rusqlite::types::Value)> = plan.params.iter().map(|p| (p.name, match &p.value {
        SqlValue::Integer(i) => rusqlite::types::Value::Integer(*i),
        SqlValue::Text(s) => rusqlite::types::Value::Text(s.clone()),
        SqlValue::Null => rusqlite::types::Value::Null,
    })).collect();
    stmt.query_one(named.as_slice(), |row| row.get(0)).map_err(StatementError::Execute)
}

/// `prepare_cached` then `Statement::execute` of [`ENSURE_TAG_ASSOCIATION_QUERY`] (`INSERT ...
/// ON CONFLICT DO NOTHING`, keyed by the pair): adds the pair unless present, changing one row
/// exactly when it adds it.
#[verifier::external_body]
pub(crate) fn run_ensure_tag_association(db: &mut rusqlite::Connection, plan: &SqlPlan) -> (r:
    Result<usize, StatementError>)
    requires
        plan.sql == ENSURE_TAG_ASSOCIATION_QUERY,
        has_params(plan, seq![":item_id", ":tag_id"], seq![true, true]),
    ensures
        r matches Ok(rows) ==> rows == (if export_tag_links(*old(db)).contains(
            (int_arg(plan, 0), int_arg(plan, 1)),
        ) {
            0usize
        } else {
            1usize
        }) && export_tables(*final(db)) == with_links(
            export_tables(*old(db)),
            export_tag_links(*old(db)).insert((int_arg(plan, 0), int_arg(plan, 1))),
        ),
{
    let mut stmt = db.prepare_cached(plan.sql).map_err(StatementError::Prepare)?;
    let named: Vec<(&str, rusqlite::types::Value)> = plan.params.iter().map(|p| (p.name, match &p.value {
        SqlValue::Integer(i) => rusqlite::types::Value::Integer(*i),
        SqlValue::Text(s) => rusqlite::types::Value::Text(s.clone()),
        SqlValue::Null => rusqlite::types::Value::Null,
    })).collect();
    stmt.execute(named.as_slice()).map_err(StatementError::Execute)
}

/// `prepare_cached` then `Statement::query_one` of [`ENSURE_CATEGORY_QUERY`] (`INSERT ... ON
/// CONFLICT (emoji) DO UPDATE ... RETURNING id`, emojis being unique): answers the id of the
/// category with that emoji, adding it under a fresh id if there is none.
#[verifier::external_body]
pub(crate) fn run_ensure_category(db: &mut rusqlite::Connection, plan: &SqlPlan) -> (r: Result<
    i64,
    StatementError,
>)
    requires
        plan.sql == ENSURE_CATEGORY_QUERY,
        has_params(plan, seq![":category"], seq![false]),
    ensures
        r matches Ok(id) ==> value_ensured(
            export_categories(*old(db)),
            export_categories(*final(db)),
            text_arg(plan, 0),
            id as int,
        ) && export_tables(*final(db)) == with_categories(
            export_tables(*old(db)),
            export_categories(*final(db)),
        ),
{
    let mut stmt = db.prepare_cached(plan.sql).map_err(StatementError::Prepare)?;
    let named: Vec<(&str, rusqlite::types::Value)> = plan.params.iter().map(|p| (p.name, match &p.value {
        SqlValue::Integer(i) => rusqlite::types::Value::Integer(*i),
        SqlValue::Text(s) => rusqlite::types::Value::Text(s.clone()),
        SqlValue::Null => rusqlite::types::Value::Null,
    })).collect();
    stmt.query_one(named.as_slice(), |row| row.get(0)).map_err(StatementError::Execute)
}

/// `prepare_cached` then `Statement::execute` of [`ADD_VOTE_QUERY`]: adds one vote row. With the
/// schema applied, its item, user and category must exist.
#[verifier::external_body]
pub(crate) fn run_add_vote(db: &mut rusqlite::Connection, plan: &SqlPlan) -> (r: Result<
    usize,
    StatementError,
>)
    requires
        plan.sql == ADD_VOTE_QUERY,
        has_params(plan, seq![":item_id", ":user_id", ":category_id"], seq![true, true, true]),
    ensures
        r is Ok ==> export_tables(*final(db)) == with_votes(
            export_tables(*old(db)),
            export_votes(*old(db)).insert((int_arg(plan, 0), int_arg(plan, 1), int_arg(plan, 2))),
        ) && (export_schema_applied(*old(db)) ==> export_items(*old(db)).contains_key(
            int_arg(plan, 0),
        ) && export_users(*old(db)).contains_key(int_arg(plan, 1)) && export_categories(
            *old(db),
        ).contains_key(int_arg(plan, 2))),
{
    let mut stmt = db.prepare_cached(plan.sql).map_err(StatementError::Prepare)?;
    let named: Vec<(&str, rusqlite::types::Value)> = plan.params.iter().map(|p| (p.name, match &p.value {
        SqlValue::Integer(i) => rusqlite::types::Value::Integer(*i),
        SqlValue::Text(s) => rusqlite::types::Value::Text(s.clone()),
        SqlValue::Null => rusqlite::types::Value::Null,
    })).collect();
    stmt.execute(named.as_slice()).map_err(StatementError::Execute)
}

/// `prepare_cached` then `Statement::execute` of [`VACUUM_INTO_QUERY`]: writes a copy of the
/// database to the file the parameter names. Nothing is claimed of the outcome, which depends
/// on the file system.
#[verifier::external_body]
pub(crate) fn run_vacuum_into(db: &rusqlite::Connection, plan: &SqlPlan) -> Result<
    usize,
    StatementError,
>
    requires
        plan.sql == VACUUM_INTO_QUERY,
        has_params(plan, seq![":path"], seq![false]),
{
    let mut stmt = db.prepare_cached(plan.sql).map_err(StatementError::Prepare)?;
    let named: Vec<(&str, rusqlite::types::Value)> = plan.params.iter().map(|p| (p.name, match &p.value {
        SqlValue::Integer(i) => rusqlite::types::Value::Integer(*i),
        SqlValue::Text(s) => rusqlite::types::Value::Text(s.clone()),
        SqlValue::Null => rusqlite::types::Value::Null,
    })).collect();
    stmt.execute(named.as_slice()).map_err(StatementError::Execute)
}

} // verus!
