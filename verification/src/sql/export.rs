//! The exported database: a fresh in-memory Sqlite database filled with a channel's items
//! and votes, then written to a file.
use vstd::prelude::*;

use crate::export::item::ItemWithMetadata;
use crate::export::vote::Vote;
use crate::ids::{MessageId, UserId};
use crate::sql::bot::{int_param, rows_changed};
use crate::sql::calls::{SqlParam, SqlPlan, SqlValue, StatementError};
use crate::sql::export_calls::{
    export_tables, export_tag_links, export_tags, export_categories, export_users, int_arg,
    open_in_memory, run_add_item, run_add_vote, run_ensure_category, run_ensure_tag,
    run_ensure_tag_association, run_ensure_user, run_export_schema, run_transaction_control,
    run_vacuum_into, text_arg, text_of, value_ensured, with_categories, with_links, with_schema,
    with_tags, with_users, with_votes, ExportTables, BEGIN_TRANSACTION, COMMIT_TRANSACTION,
    ROLLBACK_TRANSACTION,
};
use vstd::multiset::Multiset;
use crate::sql::error::{sql_error_head, SqlError};
use crate::sql::to_sql_integer::{bits_as_i64_spec, ToSqlInteger};

verus! {

/// Schema of the exported database. As an existing export is never read or upgraded, but a
/// fresh one is always generated, the schema is always current.
pub const EXPORT_SCHEMA: &'static str = "PRAGMA foreign_keys = ON;
CREATE TABLE users (id INTEGER PRIMARY KEY NOT NULL, display_name TEXT NOT NULL);
CREATE TABLE items (id INTEGER PRIMARY KEY NOT NULL, posted_by INTEGER NOT NULL REFERENCES users (id), title TEXT NOT NULL, description TEXT NOT NULL, created TEXT NOT NULL, edited TEXT NOT NULL);
CREATE TABLE tags (id INTEGER PRIMARY KEY NOT NULL, description TEXT NOT NULL UNIQUE);
CREATE TABLE tag_associations (item_id INTEGER NOT NULL REFERENCES items (id), tag_id INTEGER NOT NULL REFERENCES tags (id), PRIMARY KEY (item_id, tag_id));
CREATE TABLE categories (id INTEGER PRIMARY KEY NOT NULL, emoji TEXT NOT NULL UNIQUE);
CREATE TABLE votes (id INTEGER PRIMARY KEY NOT NULL, item_id INTEGER NOT NULL REFERENCES items (id), user_id INTEGER NOT NULL REFERENCES users (id), category_id INTEGER NOT NULL REFERENCES categories (id));";

/// Inserts a user unless one with that id exists already.
pub const ENSURE_USER_QUERY: &'static str =
    "INSERT OR IGNORE INTO users (id, display_name) VALUES (:user_id, :display_name)";

/// Inserts an item and returns its id.
pub const ADD_ITEM_QUERY: &'static str =
    "INSERT INTO items (id, posted_by, title, description, created, edited) VALUES (:id, :posted_by, :title, :description, :created, :edited) RETURNING id";

/// Inserts a tag unless it exists already, and returns its id either way.
pub const ENSURE_TAG_QUERY: &'static str =
    "INSERT INTO tags (description) VALUES (:description) ON CONFLICT (description) DO UPDATE SET description = excluded.description RETURNING id";

/// Associates a tag with an item unless they are associated already.
pub const ENSURE_TAG_ASSOCIATION_QUERY: &'static str =
    "INSERT INTO tag_associations (item_id, tag_id) VALUES (:item_id, :tag_id) ON CONFLICT DO NOTHING";

/// Inserts a category unless it exists already, and returns its id either way.
pub const ENSURE_CATEGORY_QUERY: &'static str =
    "INSERT INTO categories (emoji) VALUES (:category) ON CONFLICT (emoji) DO UPDATE SET emoji = excluded.emoji RETURNING id";

/// Inserts a vote.
pub const ADD_VOTE_QUERY: &'static str =
    "INSERT INTO votes (item_id, user_id, category_id) VALUES (:item_id, :user_id, :category_id)";

/// Writes the database to a file.
pub const VACUUM_INTO_QUERY: &'static str = "VACUUM INTO :path";

/// An integer row id, as Sqlite's `INTEGER PRIMARY KEY` holds it.
pub type Pk = i64;

/// A text parameter holding `value`.
pub open spec fn text_param(name: &'static str, value: String) -> SqlParam {
    SqlParam { name, value: SqlValue::Text(value) }
}

/// A parameter holding the row id `value`.
pub open spec fn pk_param(name: &'static str, value: Pk) -> SqlParam {
    SqlParam { name, value: SqlValue::Integer(value) }
}

/// The statement that adds the user `user_id`, named `display_name`, unless it exists.
pub fn ensure_user_plan(user_id: UserId, display_name: &str) -> (p: SqlPlan)
    ensures
        p.sql == ENSURE_USER_QUERY,
        p.params.len() == 2,
        p.params[0] == int_param(":user_id", user_id.0),
        p.params[1].name == ":display_name",
        p.params[1].value matches SqlValue::Text(t) && t@ == display_name@,
{
    let mut params: Vec<SqlParam> = Vec::new();
    params.push(SqlParam { name: ":user_id", value: SqlValue::Integer(user_id.to_sql()) });
    params.push(SqlParam { name: ":display_name", value: SqlValue::Text(display_name.to_owned()) });
    SqlPlan { sql: ENSURE_USER_QUERY, params }
}

/// When `item` was last changed: when it was edited, or else when it was posted.
pub open spec fn last_change(item: ItemWithMetadata) -> String {
    match item.modified_at {
        Some(m) => m,
        None => item.created_at,
    }
}

/// Law: the stored times are the message's own: the posting time, and the edit time when the
/// message was edited (the posting time when it never was).
pub proof fn lemma_stored_times(item: ItemWithMetadata, posted_by: int)
    ensures
        item_row(item, posted_by).3 == item.created_at@,
        item.modified_at matches Some(m) ==> last_change(item) == m && item_row(item, posted_by).4
            == m@,
        item.modified_at is None ==> item_row(item, posted_by).4 == item.created_at@,
{
}

/// The statement that adds `item`, posted by the user with row id `posted_by`. Nothing is
/// nullable: an item never edited has its posting time as its edit time.
pub fn add_item_plan(item: &ItemWithMetadata, posted_by: Pk) -> (p: SqlPlan)
    ensures
        p.sql == ADD_ITEM_QUERY,
        p.params@ == seq![
            int_param(":id", item.message_id.0),
            pk_param(":posted_by", posted_by),
            text_param(":title", item.item.title),
            text_param(":description", item.item.description),
            text_param(":created", item.created_at),
            text_param(":edited", last_change(*item)),
        ],
{
    let mut p: Vec<SqlParam> = Vec::new();
    p.push(SqlParam { name: ":id", value: SqlValue::Integer(item.message_id.to_sql()) });
    p.push(SqlParam { name: ":posted_by", value: SqlValue::Integer(posted_by) });
    p.push(SqlParam { name: ":title", value: SqlValue::Text(item.item.title.clone()) });
    p.push(
        SqlParam { name: ":description", value: SqlValue::Text(item.item.description.clone()) },
    );
    p.push(SqlParam { name: ":created", value: SqlValue::Text(item.created_at.clone()) });
    let edited = match &item.modified_at {
        Some(m) => m.clone(),
        None => item.created_at.clone(),
    };
    p.push(SqlParam { name: ":edited", value: SqlValue::Text(edited) });
    assert(p@ =~= seq![
        int_param(":id", item.message_id.0),
        pk_param(":posted_by", posted_by),
        text_param(":title", item.item.title),
        text_param(":description", item.item.description),
        text_param(":created", item.created_at),
        text_param(":edited", last_change(*item)),
    ]);
    SqlPlan { sql: ADD_ITEM_QUERY, params: p }
}

/// The query that adds the tag `tag` unless it exists, answering its row id.
pub fn ensure_tag_plan(tag: &String) -> (p: SqlPlan)
    ensures
        p.sql == ENSURE_TAG_QUERY,
        p.params@ == seq![text_param(":description", *tag)],
{
    let mut params: Vec<SqlParam> = Vec::new();
    params.push(SqlParam { name: ":description", value: SqlValue::Text(tag.clone()) });
    assert(params@ =~= seq![text_param(":description", *tag)]);
    SqlPlan { sql: ENSURE_TAG_QUERY, params }
}

/// The statement that associates the tag `tag_id` with the item `item_id` unless they are.
pub fn ensure_tag_association_plan(item_id: Pk, tag_id: Pk) -> (p: SqlPlan)
    ensures
        p.sql == ENSURE_TAG_ASSOCIATION_QUERY,
        p.params@ == seq![pk_param(":item_id", item_id), pk_param(":tag_id", tag_id)],
{
    let mut params: Vec<SqlParam> = Vec::new();
    params.push(SqlParam { name: ":item_id", value: SqlValue::Integer(item_id) });
    params.push(SqlParam { name: ":tag_id", value: SqlValue::Integer(tag_id) });
    assert(params@ =~= seq![pk_param(":item_id", item_id), pk_param(":tag_id", tag_id)]);
    SqlPlan { sql: ENSURE_TAG_ASSOCIATION_QUERY, params }
}

/// The query that adds the category `category` unless it exists, answering its row id.
pub fn ensure_category_plan(category: &String) -> (p: SqlPlan)
    ensures
        p.sql == ENSURE_CATEGORY_QUERY,
        p.params@ == seq![text_param(":category", *category)],
{
    let mut params: Vec<SqlParam> = Vec::new();
    params.push(SqlParam { name: ":category", value: SqlValue::Text(category.clone()) });
    assert(params@ =~= seq![text_param(":category", *category)]);
    SqlPlan { sql: ENSURE_CATEGORY_QUERY, params }
}

/// The statement that adds `vote`, tallied in the category with row id `category_id`.
pub fn add_vote_plan(vote: &Vote, category_id: Pk) -> (p: SqlPlan)
    ensures
        p.sql == ADD_VOTE_QUERY,
        p.params@ == seq![
            int_param(":item_id", vote.item_id.0),
            int_param(":user_id", vote.user_id.0),
            pk_param(":category_id", category_id),
        ],
{
    let mut p: Vec<SqlParam> = Vec::new();
    p.push(SqlParam { name: ":item_id", value: SqlValue::Integer(vote.item_id.to_sql()) });
    p.push(SqlParam { name: ":user_id", value: SqlValue::Integer(vote.user_id.to_sql()) });
    p.push(SqlParam { name: ":category_id", value: SqlValue::Integer(category_id) });
    assert(p@ =~= seq![
        int_param(":item_id", vote.item_id.0),
        int_param(":user_id", vote.user_id.0),
        pk_param(":category_id", category_id),
    ]);
    SqlPlan { sql: ADD_VOTE_QUERY, params: p }
}

/// The users table `users` once the user `id`, named `name`, has been ensured: unchanged if the
/// user exists, else with the user added.
pub open spec fn user_ensured(users: Map<int, Seq<char>>, id: int, name: Seq<char>) -> Map<
    int,
    Seq<char>,
> {
    if users.contains_key(id) {
        users
    } else {
        users.insert(id, name)
    }
}

/// The row stored for `item`, posted by the user with row id `posted_by`.
pub open spec fn item_row(item: ItemWithMetadata, posted_by: int) -> (
    int,
    Seq<char>,
    Seq<char>,
    Seq<char>,
    Seq<char>,
) {
    (posted_by, item.item.title@, item.item.description@, item.created_at@, last_change(item)@)
}

/// The characters of each tag of `item`.
pub open spec fn tag_texts(item: ItemWithMetadata) -> Seq<Seq<char>> {
    item.item.tags@.map_values(|t: String| t@)
}

/// Whether `after` keeps every tag and tag association of `before`, adds tags only with
/// descriptions among `tags` and associations only of the item `id`, and holds each of `tags`
/// associated with `id`.
pub open spec fn tags_linked(before: ExportTables, after: ExportTables, id: int, tags: Seq<Seq<char>>) -> bool {
    &&& forall|k: int|
        #[trigger] before.tags.contains_key(k) ==> after.tags.contains_key(k) && after.tags[k]
            == before.tags[k]
    &&& forall|k: int|
        #[trigger] after.tags.contains_key(k) && !before.tags.contains_key(k) ==> exists|j: int|
            0 <= j < tags.len() && after.tags[k] == tags[j]
    &&& forall|l: (int, int)| #[trigger] before.links.contains(l) ==> after.links.contains(l)
    &&& forall|l: (int, int)|
        #[trigger] after.links.contains(l) && !before.links.contains(l) ==> l.0 == id
    &&& forall|j: int|
        0 <= j < tags.len() ==> exists|k: int|
            after.tags.contains_key(k) && after.tags[k] == #[trigger] tags[j] && after.links.contains(
                (id, k),
            )
}

/// Whether `after` holds the tables `before` once `item` has been added under the row id `id`:
/// its poster ensured, the item added under its message id (which was new), its tags ensured
/// and associated with it, and nothing else changed.
pub open spec fn item_added(before: ExportTables, after: ExportTables, item: ItemWithMetadata, id: int) -> bool {
    let poster = bits_as_i64_spec(item.posted_by.0);
    &&& id == bits_as_i64_spec(item.message_id.0)
    &&& !before.items.contains_key(id)
    &&& after.schema == before.schema
    &&& after.users == user_ensured(before.users, poster, item.posted_by_display_name@)
    &&& after.items == before.items.insert(id, item_row(item, poster))
    &&& after.categories == before.categories
    &&& after.votes == before.votes
    &&& tags_linked(before, after, id, tag_texts(item))
}

/// Whether `after` holds the tables `before` once `vote` has been added, tallied in the category
/// `category`: the category of its emoji ensured and the vote row added, nothing else changed.
/// With the schema applied, the vote's item and voter existed.
pub open spec fn vote_added(before: ExportTables, after: ExportTables, vote: Vote, category: int) -> bool {
    &&& value_ensured(before.categories, after.categories, vote.emoji@, category)
    &&& after == with_votes(
        with_categories(before, after.categories),
        before.votes.insert(
            (bits_as_i64_spec(vote.item_id.0), bits_as_i64_spec(vote.user_id.0), category),
        ),
    )
    &&& before.schema ==> before.items.contains_key(bits_as_i64_spec(vote.item_id.0))
        && before.users.contains_key(bits_as_i64_spec(vote.user_id.0))
}

/// The tables of a new export database: the schema applied, every table empty.
pub open spec fn fresh_tables() -> ExportTables {
    ExportTables {
        schema: true,
        users: Map::empty(),
        items: Map::empty(),
        tags: Map::empty(),
        links: Set::empty(),
        categories: Map::empty(),
        votes: Multiset::empty(),
    }
}

/// Creates the tables of an export in `connection`: runs [`EXPORT_SCHEMA`].
pub fn apply_schema(connection: &mut rusqlite::Connection) -> (res: Result<(), SqlError>)
    ensures
        res is Ok ==> export_tables(*final(connection)) == with_schema(
            export_tables(*old(connection)),
            true,
        ),
        res matches Err(e) ==> sql_error_head(&e) == "applying the export schema"@,
{
    match run_export_schema(connection, EXPORT_SCHEMA) {
        Ok(()) => Ok(()),
        Err(e) => Err(SqlError::sql("applying the export schema", e)),
    }
}

/// A fresh in-memory export database with the export schema applied, and empty.
pub fn new_export_database() -> (res: Result<rusqlite::Connection, SqlError>)
    ensures
        res matches Ok(c) ==> export_tables(c) == fresh_tables(),
        res matches Err(e) ==> sql_error_head(&e) == "opening an in-memory database"@
            || sql_error_head(&e) == "applying the export schema"@,
{
    let mut connection = match open_in_memory() {
        Ok(c) => c,
        Err(e) => return Err(SqlError::sql("opening an in-memory database", e)),
    };
    apply_schema(&mut connection)?;
    Ok(connection)
}

/// The error for a failed statement, reported under `context`.
fn statement_failed(e: StatementError, context: &'static str) -> (r: SqlError)
    ensures
        sql_error_head(&r) == context@,
{
    match e {
        StatementError::Prepare(source) => SqlError::sql(context, source),
        StatementError::Execute(source) => SqlError::sql(context, source),
    }
}

/// Ensure a user exists in the export database: runs [`ensure_user_plan`].
///
/// If the user already exists in the database, its name is taken to be more current than
/// `display_name`, and nothing changes. Returns the user's row id (its id as stored) and
/// whether the user was created.
pub fn ensure_user(connection: &mut rusqlite::Connection, user_id: UserId, display_name: &str) -> (res:
    Result<(Pk, bool), SqlError>)
    ensures
        res matches Ok(r) ==> r.0 as int == bits_as_i64_spec(user_id.0) && r.1
            == !export_users(*old(connection)).contains_key(r.0 as int) && export_tables(
            *final(connection),
        ) == with_users(
            export_tables(*old(connection)),
            user_ensured(export_users(*old(connection)), r.0 as int, display_name@),
        ),
        res matches Err(e) ==> sql_error_head(&e) == "adding a user to the export"@,
{
    let plan = ensure_user_plan(user_id, display_name);
    proof {
        assert(plan.params@[0] == int_param(":user_id", user_id.0));
        assert(text_of(plan.params@[1]) == display_name@);
    }
    match run_ensure_user(connection, &plan) {
        Ok(rows) => {
            proof {
                if !export_users(*old(connection)).contains_key(bits_as_i64_spec(user_id.0)) {
                    assert(user_ensured(
                        export_users(*old(connection)),
                        bits_as_i64_spec(user_id.0),
                        display_name@,
                    ) == export_users(*old(connection)).insert(
                        bits_as_i64_spec(user_id.0),
                        display_name@,
                    ));
                } else {
                    assert(with_users(export_tables(*old(connection)), export_users(*old(connection)))
                        =~= export_tables(*old(connection)));
                }
            }
            Ok((user_id.to_sql(), rows_changed(rows)))
        },
        Err(e) => Err(statement_failed(e, "adding a user to the export")),
    }
}

/// Ensure a tag exists in the export database: runs [`ensure_tag_plan`]. Returns the tag's row
/// id; only the tags may change.
pub fn ensure_tag(connection: &mut rusqlite::Connection, tag: &String) -> (res: Result<Pk, SqlError>)
    ensures
        res matches Ok(id) ==> value_ensured(
            export_tags(*old(connection)),
            export_tags(*final(connection)),
            tag@,
            id as int,
        ) && export_tables(*final(connection)) == with_tags(
            export_tables(*old(connection)),
            export_tags(*final(connection)),
        ),
        res matches Err(e) ==> sql_error_head(&e) == "adding a tag to the export"@,
{
    let plan = ensure_tag_plan(tag);
    proof {
        assert(plan.params@[0] == text_param(":description", *tag));
    }
    match run_ensure_tag(connection, &plan) {
        Ok(id) => Ok(id),
        Err(e) => Err(statement_failed(e, "adding a tag to the export")),
    }
}

/// Ensure a tag association exists in the export database: runs
/// [`ensure_tag_association_plan`]. Returns whether it was newly created.
pub fn ensure_tag_association(connection: &mut rusqlite::Connection, item_id: Pk, tag_id: Pk) -> (res:
    Result<bool, SqlError>)
    ensures
        res matches Ok(created) ==> created == !export_tag_links(*old(connection)).contains(
            (item_id as int, tag_id as int),
        ) && export_tables(*final(connection)) == with_links(
            export_tables(*old(connection)),
            export_tag_links(*old(connection)).insert((item_id as int, tag_id as int)),
        ),
        res matches Err(e) ==> sql_error_head(&e) == "associating a tag with an item"@,
{
    let plan = ensure_tag_association_plan(item_id, tag_id);
    proof {
        assert(plan.params@[0] == pk_param(":item_id", item_id));
        assert(plan.params@[1] == pk_param(":tag_id", tag_id));
    }
    match run_ensure_tag_association(connection, &plan) {
        Ok(rows) => Ok(rows_changed(rows)),
        Err(e) => Err(statement_failed(e, "associating a tag with an item")),
    }
}

/// Runs `BEGIN`, `COMMIT` or `ROLLBACK`; a failure is reported under `context`.
fn transaction_control(connection: &mut rusqlite::Connection, sql: &'static str, context: &'static str) -> (res:
    Result<(), SqlError>)
    requires
        sql == BEGIN_TRANSACTION || sql == COMMIT_TRANSACTION || sql == ROLLBACK_TRANSACTION,
    ensures
        sql != ROLLBACK_TRANSACTION && res is Ok ==> export_tables(*final(connection))
            == export_tables(*old(connection)),
        res matches Err(e) ==> sql_error_head(&e) == context@,
{
    match run_transaction_control(connection, sql) {
        Ok(()) => Ok(()),
        Err(e) => Err(SqlError::sql(context, e)),
    }
}

/// The steps of [`add_item`] inside its transaction.
fn add_item_steps(connection: &mut rusqlite::Connection, item: &ItemWithMetadata) -> (res: Result<
    Pk,
    SqlError,
>)
    ensures
        res matches Ok(id) ==> item_added(
            export_tables(*old(connection)),
            export_tables(*final(connection)),
            *item,
            id as int,
        ),
        res matches Err(e) ==> {
            ||| sql_error_head(&e) == "adding a user to the export"@
            ||| sql_error_head(&e) == "adding an item to the export"@
            ||| sql_error_head(&e) == "adding a tag to the export"@
            ||| sql_error_head(&e) == "associating a tag with an item"@
        },
{
    let ghost before = export_tables(*connection);
    let (posted_by, _created) = ensure_user(
        connection,
        item.posted_by,
        item.posted_by_display_name.as_str(),
    )?;
    let plan = add_item_plan(item, posted_by);
    proof {
        assert(plan.params@[0] == int_param(":id", item.message_id.0));
        assert(plan.params@[1] == pk_param(":posted_by", posted_by));
        assert(plan.params@[2] == text_param(":title", item.item.title));
        assert(plan.params@[3] == text_param(":description", item.item.description));
        assert(plan.params@[4] == text_param(":created", item.created_at));
        assert(plan.params@[5] == text_param(":edited", last_change(*item)));
    }
    let item_id = match run_add_item(connection, &plan) {
        Ok(id) => id,
        Err(e) => return Err(statement_failed(e, "adding an item to the export")),
    };
    let ghost with_item = export_tables(*connection);
    let ghost tags = tag_texts(*item);
    proof {
        assert(with_item.users == user_ensured(
            before.users,
            bits_as_i64_spec(item.posted_by.0),
            item.posted_by_display_name@,
        ));
        assert(item_row(*item, bits_as_i64_spec(item.posted_by.0)) == (
            int_arg(&plan, 1),
            text_arg(&plan, 2),
            text_arg(&plan, 3),
            text_arg(&plan, 4),
            text_arg(&plan, 5),
        ));
    }
    let mut i: usize = 0;
    while i < item.item.tags.len()
        invariant
            i <= item.item.tags.len(),
            tags == tag_texts(*item),
            item_id as int == bits_as_i64_spec(item.message_id.0),
            !before.items.contains_key(item_id as int),
            with_item.schema == before.schema,
            with_item.users == user_ensured(
                before.users,
                bits_as_i64_spec(item.posted_by.0),
                item.posted_by_display_name@,
            ),
            with_item.items == before.items.insert(
                item_id as int,
                item_row(*item, bits_as_i64_spec(item.posted_by.0)),
            ),
            with_item.categories == before.categories,
            with_item.votes == before.votes,
            with_item.tags == before.tags,
            with_item.links == before.links,
            export_tables(*connection) == with_links(
                with_tags(with_item, export_tables(*connection).tags),
                export_tables(*connection).links,
            ),
            tags_linked(before, export_tables(*connection), item_id as int, tags.take(i as int)),
        decreases item.item.tags.len() - i,
    {
        let ghost cur = export_tables(*connection);
        let tag_id = ensure_tag(connection, &item.item.tags[i])?;
        let ghost mid = export_tables(*connection);
        ensure_tag_association(connection, item_id, tag_id)?;
        let ghost after = export_tables(*connection);
        proof {
            let t = tags[i as int];
            assert(t == item.item.tags@[i as int]@);
            let prev = tags.take(i as int);
            let next = tags.take(i + 1);
            assert(after.tags == mid.tags);
            assert(after.links == cur.links.insert((item_id as int, tag_id as int)));
            assert(mid.tags.contains_key(tag_id as int) && mid.tags[tag_id as int] == t);
            assert forall|k: int| #[trigger] before.tags.contains_key(k) implies after.tags.contains_key(k)
                && after.tags[k] == before.tags[k] by {
                assert(cur.tags.contains_key(k));
            }
            assert forall|k: int| #[trigger] after.tags.contains_key(k) && !before.tags.contains_key(k) implies exists|j: int|
                0 <= j < next.len() && after.tags[k] == next[j] by {
                if cur.tags.contains_key(k) {
                    let j = choose|j: int| 0 <= j < prev.len() && cur.tags[k] == prev[j];
                    assert(next[j] == prev[j]);
                } else {
                    assert(k == tag_id as int);
                    assert(next[i as int] == t);
                }
            }
            assert forall|l: (int, int)| #[trigger] after.links.contains(l) && !before.links.contains(l) implies l.0
                == item_id as int by {
                if cur.links.contains(l) {
                } else {
                    assert(l == (item_id as int, tag_id as int));
                }
            }
            assert forall|j: int| 0 <= j < next.len() implies exists|k: int|
                after.tags.contains_key(k) && after.tags[k] == #[trigger] next[j] && after.links.contains(
                    (item_id as int, k),
                ) by {
                if j < i {
                    assert(next[j] == prev[j]);
                    let k = choose|k: int|
                        cur.tags.contains_key(k) && cur.tags[k] == #[trigger] prev[j] && cur.links.contains(
                            (item_id as int, k),
                        );
                    assert(after.tags.contains_key(k) && after.tags[k] == prev[j]);
                } else {
                    assert(after.links.contains((item_id as int, tag_id as int)));
                }
            }
            assert(after == with_links(with_tags(with_item, after.tags), after.links));
        }
        i = i + 1;
    }
    proof {
        assert(tags.take(item.item.tags.len() as int) =~= tags);
    }
    Ok(item_id)
}

/// Add an item to the export database, in one transaction: its poster, the item itself
/// ([`add_item_plan`]), and each of its tags with the tag's association to the item (see
/// [`item_added`]). Returns the item's row id. On error the transaction is rolled back (what
/// the rollback leaves is not stated).
pub fn add_item(connection: &mut rusqlite::Connection, item: &ItemWithMetadata) -> (res: Result<
    Pk,
    SqlError,
>)
    ensures
        res matches Ok(id) ==> item_added(
            export_tables(*old(connection)),
            export_tables(*final(connection)),
            *item,
            id as int,
        ),
        res matches Err(e) ==> {
            ||| sql_error_head(&e) == "beginning an export transaction"@
            ||| sql_error_head(&e) == "adding a user to the export"@
            ||| sql_error_head(&e) == "adding an item to the export"@
            ||| sql_error_head(&e) == "adding a tag to the export"@
            ||| sql_error_head(&e) == "associating a tag with an item"@
            ||| sql_error_head(&e) == "committing an export transaction"@
        },
{
    transaction_control(connection, BEGIN_TRANSACTION, "beginning an export transaction")?;
    match add_item_steps(connection, item) {
        Ok(id) => match transaction_control(
            connection,
            COMMIT_TRANSACTION,
            "committing an export transaction",
        ) {
            Ok(()) => Ok(id),
            Err(e) => {
                let _ = transaction_control(connection, ROLLBACK_TRANSACTION, "rolling back");
                Err(e)
            },
        },
        Err(e) => {
            let _ = transaction_control(connection, ROLLBACK_TRANSACTION, "rolling back");
            Err(e)
        },
    }
}

/// Persists `item` ([`add_item`]) and gives back the id of its message, which is then to be
/// reported as persisted: it is given back only once the item is in the export.
pub fn persist_item(connection: &mut rusqlite::Connection, item: &ItemWithMetadata) -> (res: Result<
    MessageId,
    SqlError,
>)
    ensures
        res matches Ok(m) ==> m == item.message_id && item_added(
            export_tables(*old(connection)),
            export_tables(*final(connection)),
            *item,
            bits_as_i64_spec(item.message_id.0),
        ),
        res matches Err(e) ==> {
            ||| sql_error_head(&e) == "beginning an export transaction"@
            ||| sql_error_head(&e) == "adding a user to the export"@
            ||| sql_error_head(&e) == "adding an item to the export"@
            ||| sql_error_head(&e) == "adding a tag to the export"@
            ||| sql_error_head(&e) == "associating a tag with an item"@
            ||| sql_error_head(&e) == "committing an export transaction"@
        },
{
    add_item(connection, item)?;
    Ok(item.message_id)
}

/// Ensure a category (an emoji) exists in the export database: runs
/// [`ensure_category_plan`]. Returns its row id; only the categories may change.
pub fn ensure_category(connection: &mut rusqlite::Connection, category: &String) -> (res: Result<
    Pk,
    SqlError,
>)
    ensures
        res matches Ok(id) ==> value_ensured(
            export_categories(*old(connection)),
            export_categories(*final(connection)),
            category@,
            id as int,
        ) && export_tables(*final(connection)) == with_categories(
            export_tables(*old(connection)),
            export_categories(*final(connection)),
        ),
        res matches Err(e) ==> sql_error_head(&e) == "adding a category to the export"@,
{
    let plan = ensure_category_plan(category);
    proof {
        assert(plan.params@[0] == text_param(":category", *category));
    }
    match run_ensure_category(connection, &plan) {
        Ok(id) => Ok(id),
        Err(e) => Err(statement_failed(e, "adding a category to the export")),
    }
}

/// The steps of [`add_vote`] inside its transaction.
fn add_vote_steps(connection: &mut rusqlite::Connection, vote: &Vote) -> (res: Result<(), SqlError>)
    ensures
        res is Ok ==> exists|category: int|
            vote_added(export_tables(*old(connection)), export_tables(*final(connection)), *vote, category),
        res matches Err(e) ==> {
            ||| sql_error_head(&e) == "adding a category to the export"@
            ||| sql_error_head(&e) == "adding a vote to the export"@
        },
{
    let ghost before = export_tables(*connection);
    let category_id = ensure_category(connection, &vote.emoji)?;
    let ghost mid = export_tables(*connection);
    let plan = add_vote_plan(vote, category_id);
    proof {
        assert(plan.params@[0] == int_param(":item_id", vote.item_id.0));
        assert(plan.params@[1] == int_param(":user_id", vote.user_id.0));
        assert(plan.params@[2] == pk_param(":category_id", category_id));
    }
    match run_add_vote(connection, &plan) {
        Ok(_) => {
            proof {
                let after = export_tables(*connection);
                assert(mid.items == before.items && mid.users == before.users && mid.schema
                    == before.schema && mid.votes == before.votes);
                assert(vote_added(before, after, *vote, category_id as int));
            }
            Ok(())
        },
        Err(e) => Err(statement_failed(e, "adding a vote to the export")),
    }
}

/// Add a vote to the export database ([`add_vote_plan`]), in one transaction with its
/// category (see [`vote_added`]). On error the transaction is rolled back.
///
/// This will error unless the vote's voter and item have already been added to the database
/// (the export enforces its foreign keys); [`persist_vote`] adds the voter first.
pub fn add_vote(connection: &mut rusqlite::Connection, vote: &Vote) -> (res: Result<(), SqlError>)
    ensures
        res is Ok ==> exists|category: int|
            vote_added(export_tables(*old(connection)), export_tables(*final(connection)), *vote, category),
        res matches Err(e) ==> {
            ||| sql_error_head(&e) == "beginning an export transaction"@
            ||| sql_error_head(&e) == "adding a category to the export"@
            ||| sql_error_head(&e) == "adding a vote to the export"@
            ||| sql_error_head(&e) == "committing an export transaction"@
        },
{
    transaction_control(connection, BEGIN_TRANSACTION, "beginning an export transaction")?;
    match add_vote_steps(connection, vote) {
        Ok(()) => match transaction_control(
            connection,
            COMMIT_TRANSACTION,
            "committing an export transaction",
        ) {
            Ok(()) => Ok(()),
            Err(e) => {
                let _ = transaction_control(connection, ROLLBACK_TRANSACTION, "rolling back");
                Err(e)
            },
        },
        Err(e) => {
            let _ = transaction_control(connection, ROLLBACK_TRANSACTION, "rolling back");
            Err(e)
        },
    }
}

/// Add a vote to the export database together with its voter: [`ensure_user`] for the voter,
/// then [`add_vote`].
pub fn persist_vote(connection: &mut rusqlite::Connection, vote: &Vote) -> (res: Result<
    (),
    SqlError,
>)
    ensures
        res is Ok ==> exists|category: int|
            vote_added(
                with_users(
                    export_tables(*old(connection)),
                    user_ensured(
                        export_users(*old(connection)),
                        bits_as_i64_spec(vote.user_id.0),
                        vote.voter_display_name@,
                    ),
                ),
                export_tables(*final(connection)),
                *vote,
                category,
            ),
        res matches Err(e) ==> {
            ||| sql_error_head(&e) == "adding a user to the export"@
            ||| sql_error_head(&e) == "beginning an export transaction"@
            ||| sql_error_head(&e) == "adding a category to the export"@
            ||| sql_error_head(&e) == "adding a vote to the export"@
            ||| sql_error_head(&e) == "committing an export transaction"@
        },
{
    ensure_user(connection, vote.user_id, vote.voter_display_name.as_str())?;
    add_vote(connection, vote)
}

/// The statement that writes the database to the file `path`.
pub fn vacuum_into_plan(path: &str) -> (p: SqlPlan)
    ensures
        p.sql == VACUUM_INTO_QUERY,
        p.params.len() == 1,
        p.params[0].name == ":path",
        p.params[0].value matches SqlValue::Text(t) && t@ == path@,
{
    let mut params: Vec<SqlParam> = Vec::new();
    params.push(SqlParam { name: ":path", value: SqlValue::Text(path.to_owned()) });
    SqlPlan { sql: VACUUM_INTO_QUERY, params }
}

/// Export this database to the file `path`: runs [`vacuum_into_plan`].
pub fn vacuum_into(connection: &rusqlite::Connection, path: &str) -> (res: Result<(), SqlError>)
    ensures
        res matches Err(e) ==> sql_error_head(&e) == "writing the export to a file"@,
{
    let plan = vacuum_into_plan(path);
    match run_vacuum_into(connection, &plan) {
        Ok(_) => Ok(()),
        Err(e) => Err(statement_failed(e, "writing the export to a file")),
    }
}

} // verus!
