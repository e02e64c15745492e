//! The bot's local database: which `(guild, channel)` pairs have been enabled, and by whom.
use vstd::prelude::*;

use crate::ids::{ChannelId, GuildId, UserId};
use crate::sql::calls::{has_integer_params, integer_of, SqlParam, SqlPlan, SqlValue, StatementError};
use crate::sql::error::{sql_error_head, SqlError};
use crate::sql::to_sql_integer::{bits_as_i64_spec, ToSqlInteger};

verus! {

/// The `enabled_channels` table of the bot's local database reached through `db`: each enabled
/// `(guild_id, channel_id)` pair, as stored, with the `enabled_by` user; `None` while the table
/// does not exist. The bot is the only writer of its local database, which it holds behind a
/// lock and uses in autocommit mode, so the table changes only through the calls below, and a
/// statement that fails changes nothing.
pub uninterp spec fn enabled_channels(db: rusqlite::Connection) -> Option<Map<(int, int), int>>;

/// Inserts the pair; if the `(guild_id, channel_id)` pair already existed, silently does
/// nothing (`OR IGNORE`).
pub const ENABLE_CHANNEL_QUERY: &'static str =
    "INSERT OR IGNORE INTO enabled_channels (guild_id, channel_id, enabled_by) VALUES (:guild_id, :channel_id, :actor)";

/// Removes the pair.
pub const DISABLE_CHANNEL_QUERY: &'static str =
    "DELETE FROM enabled_channels WHERE guild_id = :guild_id AND channel_id = :channel_id";

/// Whether the pair is present (1) or not (0).
pub const CHANNEL_IS_ENABLED_QUERY: &'static str =
    "SELECT EXISTS (SELECT 1 FROM enabled_channels WHERE guild_id = :guild_id AND channel_id = :channel_id)";

/// The schema of the local database.
pub const BOT_SCHEMA: &'static str =
    "CREATE TABLE IF NOT EXISTS enabled_channels (guild_id INTEGER NOT NULL, channel_id INTEGER NOT NULL, enabled_by INTEGER NOT NULL, PRIMARY KEY (guild_id, channel_id))";

/// An integer parameter holding `value`.
pub open spec fn int_param(name: &'static str, value: u64) -> SqlParam {
    SqlParam { name, value: SqlValue::Integer(bits_as_i64_spec(value) as i64) }
}

/// The parameters naming the pair `(guild, channel)`.
pub open spec fn pair_params(guild: GuildId, channel: ChannelId) -> Seq<SqlParam> {
    seq![int_param(":guild_id", guild.0), int_param(":channel_id", channel.0)]
}

/// The parameters naming the pair `(guild, channel)`, as stored.
pub fn pair_params_exec(guild: GuildId, channel: ChannelId) -> (p: Vec<SqlParam>)
    ensures
        p@ == pair_params(guild, channel),
{
    let mut p: Vec<SqlParam> = Vec::new();
    p.push(SqlParam { name: ":guild_id", value: SqlValue::Integer(guild.to_sql()) });
    p.push(SqlParam { name: ":channel_id", value: SqlValue::Integer(channel.to_sql()) });
    assert(p@ =~= pair_params(guild, channel));
    p
}

/// The statement that enables the pair `(guild, channel)`, recording `actor` as who enabled it.
pub fn enable_channel_plan(guild: GuildId, channel: ChannelId, actor: UserId) -> (p: SqlPlan)
    ensures
        p.sql == ENABLE_CHANNEL_QUERY,
        p.params@ == pair_params(guild, channel).push(int_param(":actor", actor.0)),
{
    let mut params = pair_params_exec(guild, channel);
    params.push(SqlParam { name: ":actor", value: SqlValue::Integer(actor.to_sql()) });
    SqlPlan { sql: ENABLE_CHANNEL_QUERY, params }
}

/// The statement that disables the pair `(guild, channel)`.
pub fn disable_channel_plan(guild: GuildId, channel: ChannelId) -> (p: SqlPlan)
    ensures
        p.sql == DISABLE_CHANNEL_QUERY,
        p.params@ == pair_params(guild, channel),
{
    SqlPlan { sql: DISABLE_CHANNEL_QUERY, params: pair_params_exec(guild, channel) }
}

/// The query whether the pair `(guild, channel)` is enabled.
pub fn channel_is_enabled_plan(guild: GuildId, channel: ChannelId) -> (p: SqlPlan)
    ensures
        p.sql == CHANNEL_IS_ENABLED_QUERY,
        p.params@ == pair_params(guild, channel),
{
    SqlPlan { sql: CHANNEL_IS_ENABLED_QUERY, params: pair_params_exec(guild, channel) }
}

/// The `enabled_by` value recorded for `user`.
pub open spec fn bits_as_i64_spec_of_user(user: UserId) -> int {
    bits_as_i64_spec(user.0)
}

/// The key of the pair `(guild, channel)` in [`enabled_channels`].
pub open spec fn pair_key(guild: GuildId, channel: ChannelId) -> (int, int) {
    (bits_as_i64_spec(guild.0), bits_as_i64_spec(channel.0))
}

/// The pair that the first two parameters of `plan` name.
pub open spec fn plan_pair(plan: &SqlPlan) -> (int, int) {
    (integer_of(plan.params@[0]), integer_of(plan.params@[1]))
}

/// The table `t` once the pair `key` has been enabled by `actor`: unchanged if the pair was
/// enabled already, else with the pair added.
pub open spec fn after_enable(t: Map<(int, int), int>, key: (int, int), actor: int) -> Map<
    (int, int),
    int,
> {
    if t.contains_key(key) {
        t
    } else {
        t.insert(key, actor)
    }
}

/// The table `t` once a schema that creates it if missing has been applied.
pub open spec fn after_schema(t: Option<Map<(int, int), int>>) -> Option<Map<(int, int), int>> {
    match t {
        Some(m) => Some(m),
        None => Some(Map::empty()),
    }
}

/// `rusqlite::Connection::execute_batch` of [`BOT_SCHEMA`], which creates the table unless it
/// exists: afterwards the table exists, unchanged if it existed. A failed batch changes nothing.
#[verifier::external_body]
fn run_bot_schema(db: &mut rusqlite::Connection, schema: &str) -> (r: Result<(), rusqlite::Error>)
    requires
        schema == BOT_SCHEMA,
    ensures
        r is Ok ==> enabled_channels(*final(db)) == after_schema(enabled_channels(*old(db))),
        r is Err ==> enabled_channels(*final(db)) == enabled_channels(*old(db)),
{
    db.execute_batch(schema)
}

/// `prepare_cached` then `Statement::execute` of [`ENABLE_CHANNEL_QUERY`] (`INSERT OR IGNORE`
/// keyed by the pair): it succeeds only if the table exists, then changes one row and adds the
/// pair with its actor when the pair is absent, and changes nothing when it is present. A
/// failed statement changes nothing.
#[verifier::external_body]
fn run_enable_channel(db: &mut rusqlite::Connection, plan: &SqlPlan) -> (r: Result<
    usize,
    StatementError,
>)
    requires
        plan.sql == ENABLE_CHANNEL_QUERY,
        has_integer_params(plan, seq![":guild_id", ":channel_id", ":actor"]),
    ensures
        r matches Ok(rows) ==> enabled_channels(*old(db)) matches Some(t) && rows == (if t.contains_key(
            plan_pair(plan),
        ) {
            0usize
        } else {
            1usize
        }) && enabled_channels(*final(db)) == Some(
            after_enable(t, plan_pair(plan), integer_of(plan.params@[2])),
        ),
        r is Err ==> enabled_channels(*final(db)) == enabled_channels(*old(db)),
{
    let mut stmt = db.prepare_cached(plan.sql).map_err(StatementError::Prepare)?;
    let named: Vec<(&str, rusqlite::types::Value)> = plan.params.iter().map(|p| (p.name, match &p.value {
        SqlValue::Integer(i) => rusqlite::types::Value::Integer(*i),
        SqlValue::Text(s) => rusqlite::types::Value::Text(s.clone()),
        SqlValue::Null => rusqlite::types::Value::Null,
    })).collect();
    stmt.execute(named.as_slice()).map_err(StatementError::Execute)
}

/// `prepare_cached` then `Statement::execute` of [`DISABLE_CHANNEL_QUERY`] (`DELETE` by the
/// pair): it succeeds only if the table exists, then removes the pair, changing one row if it
/// was present and none otherwise. A failed statement changes nothing.
#[verifier::external_body]
fn run_disable_channel(db: &mut rusqlite::Connection, plan: &SqlPlan) -> (r: Result<
    usize,
    StatementError,
>)
    requires
        plan.sql == DISABLE_CHANNEL_QUERY,
        has_integer_params(plan, seq![":guild_id", ":channel_id"]),
    ensures
        r matches Ok(rows) ==> enabled_channels(*old(db)) matches Some(t) && rows == (if t.contains_key(
            plan_pair(plan),
        ) {
            1usize
        } else {
            0usize
        }) && enabled_channels(*final(db)) == Some(t.remove(plan_pair(plan))),
        r is Err ==> enabled_channels(*final(db)) == enabled_channels(*old(db)),
{
    let mut stmt = db.prepare_cached(plan.sql).map_err(StatementError::Prepare)?;
    let named: Vec<(&str, rusqlite::types::Value)> = plan.params.iter().map(|p| (p.name, match &p.value {
        SqlValue::Integer(i) => rusqlite::types::Value::Integer(*i),
        SqlValue::Text(s) => rusqlite::types::Value::Text(s.clone()),
        SqlValue::Null => rusqlite::types::Value::Null,
    })).collect();
    stmt.execute(named.as_slice()).map_err(StatementError::Execute)
}

/// `prepare_cached` then `Statement::query_one` of [`CHANNEL_IS_ENABLED_QUERY`] (`SELECT
/// EXISTS` of the pair): it succeeds only if the table exists, and then answers 1 if the pair
/// is present and 0 otherwise.
#[verifier::external_body]
fn run_channel_is_enabled(db: &rusqlite::Connection, plan: &SqlPlan) -> (r: Result<
    i64,
    StatementError,
>)
    requires
        plan.sql == CHANNEL_IS_ENABLED_QUERY,
        has_integer_params(plan, seq![":guild_id", ":channel_id"]),
    ensures
        r matches Ok(answer) ==> enabled_channels(*db) matches Some(t) && answer == (if t.contains_key(
            plan_pair(plan),
        ) {
            1i64
        } else {
            0i64
        }),
{
    let mut stmt = db.prepare_cached(plan.sql).map_err(StatementError::Prepare)?;
    let named: Vec<(&str, rusqlite::types::Value)> = plan.params.iter().map(|p| (p.name, match &p.value {
        SqlValue::Integer(i) => rusqlite::types::Value::Integer(*i),
        SqlValue::Text(s) => rusqlite::types::Value::Text(s.clone()),
        SqlValue::Null => rusqlite::types::Value::Null,
    })).collect();
    stmt.query_one(named.as_slice(), |row| row.get(0)).map_err(StatementError::Execute)
}

/// The error for a failed statement: under `prepare_context` if it could not be prepared, else
/// under `execute_context`.
fn statement_error(e: StatementError, prepare_context: &'static str, execute_context: &'static str) -> (r: SqlError)
    ensures
        sql_error_head(&r) == (match e {
            StatementError::Prepare(_) => prepare_context@,
            StatementError::Execute(_) => execute_context@,
        }),
{
    match e {
        StatementError::Prepare(source) => SqlError::sql(prepare_context, source),
        StatementError::Execute(source) => SqlError::sql(execute_context, source),
    }
}

/// Whether a statement that changed `rows` rows changed anything.
pub fn rows_changed(rows: usize) -> (changed: bool)
    ensures
        changed == (rows != 0),
{
    rows != 0
}

/// The schema of the local database, applied when it does not exist yet: runs [`BOT_SCHEMA`].
/// Afterwards the table exists, and keeps what it held.
pub fn apply_bot_schema(connection: &mut rusqlite::Connection) -> (res: Result<(), SqlError>)
    ensures
        res is Ok ==> enabled_channels(*final(connection)) == after_schema(
            enabled_channels(*old(connection)),
        ),
        res matches Err(e) ==> sql_error_head(&e) == "applying the local database schema"@
            && enabled_channels(*final(connection)) == enabled_channels(*old(connection)),
{
    match run_bot_schema(connection, BOT_SCHEMA) {
        Ok(()) => Ok(()),
        Err(e) => Err(SqlError::sql("applying the local database schema", e)),
    }
}

/// Enable a channel in the local database: runs [`enable_channel_plan`].
///
/// Returns `true` if the channel was newly enabled, or `false` if it had already previously
/// been enabled; either way the pair is enabled afterwards (see [`after_enable`]). On error
/// the table is unchanged.
pub fn enable_channel(
    connection: &mut rusqlite::Connection,
    guild: GuildId,
    channel: ChannelId,
    actor: UserId,
) -> (res: Result<bool, SqlError>)
    ensures
        res matches Ok(newly) ==> enabled_channels(*old(connection)) matches Some(t) && newly
            == !t.contains_key(pair_key(guild, channel)) && enabled_channels(*final(connection))
            == Some(after_enable(t, pair_key(guild, channel), bits_as_i64_spec_of_user(actor))),
        res matches Err(e) ==> (sql_error_head(&e) == "preparing statement to enable channel"@
            || sql_error_head(&e) == "executing statement to enable channel"@) && enabled_channels(
            *final(connection),
        ) == enabled_channels(*old(connection)),
{
    let plan = enable_channel_plan(guild, channel, actor);
    proof {
        assert(plan.params@[0] == int_param(":guild_id", guild.0));
        assert(plan.params@[1] == int_param(":channel_id", channel.0));
        assert(plan.params@[2] == int_param(":actor", actor.0));
    }
    match run_enable_channel(connection, &plan) {
        Ok(rows) => Ok(rows_changed(rows)),
        Err(e) => Err(
            statement_error(
                e,
                "preparing statement to enable channel",
                "executing statement to enable channel",
            ),
        ),
    }
}

/// Disable a channel in the local database: runs [`disable_channel_plan`].
///
/// Returns `true` if the channel was disabled, or `false` if it had not been enabled in the
/// first place; either way the pair is no longer enabled. On error the table is unchanged.
pub fn disable_channel(connection: &mut rusqlite::Connection, guild: GuildId, channel: ChannelId) -> (res:
    Result<bool, SqlError>)
    ensures
        res matches Ok(was_enabled) ==> enabled_channels(*old(connection)) matches Some(t)
            && was_enabled == t.contains_key(pair_key(guild, channel)) && enabled_channels(
            *final(connection),
        ) == Some(t.remove(pair_key(guild, channel))),
        res matches Err(e) ==> (sql_error_head(&e) == "preparing statement to disable channel"@
            || sql_error_head(&e) == "executing statement to disable channel"@) && enabled_channels(
            *final(connection),
        ) == enabled_channels(*old(connection)),
{
    let plan = disable_channel_plan(guild, channel);
    proof {
        assert(plan.params@[0] == int_param(":guild_id", guild.0));
        assert(plan.params@[1] == int_param(":channel_id", channel.0));
    }
    match run_disable_channel(connection, &plan) {
        Ok(rows) => Ok(rows_changed(rows)),
        Err(e) => Err(
            statement_error(
                e,
                "preparing statement to disable channel",
                "executing statement to disable channel",
            ),
        ),
    }
}

/// Whether an `EXISTS` query that answered `answer` found a row (Sqlite answers 1 or 0).
pub fn exists_answer(answer: i64) -> (found: bool)
    ensures
        found == (answer != 0),
{
    answer != 0
}

/// Whether the channel is enabled in the local database: runs [`channel_is_enabled_plan`] and
/// reads its answer with [`exists_answer`].
pub fn channel_is_enabled(connection: &rusqlite::Connection, guild: GuildId, channel: ChannelId) -> (res:
    Result<bool, SqlError>)
    ensures
        res matches Ok(enabled) ==> enabled_channels(*connection) matches Some(t) && enabled
            == t.contains_key(pair_key(guild, channel)),
        res matches Err(e) ==> sql_error_head(&e)
            == "preparing statement to check if channel is enabled"@ || sql_error_head(&e)
            == "executing statement to check if channel is enabled"@,
{
    let plan = channel_is_enabled_plan(guild, channel);
    proof {
        assert(plan.params@[0] == int_param(":guild_id", guild.0));
        assert(plan.params@[1] == int_param(":channel_id", channel.0));
    }
    match run_channel_is_enabled(connection, &plan) {
        Ok(answer) => Ok(exists_answer(answer)),
        Err(e) => Err(
            statement_error(
                e,
                "preparing statement to check if channel is enabled",
                "executing statement to check if channel is enabled",
            ),
        ),
    }
}

/// Law: once a pair has been enabled it reads as enabled, whoever enabled it; enabling it
/// again changes nothing; disabling it makes it read as disabled; disabling a pair that was
/// just newly enabled gives back the table as it was; and neither touches any other pair.
pub proof fn lemma_enabled_channels_read_after_write(
    t: Map<(int, int), int>,
    key: (int, int),
    other: (int, int),
    actor: int,
    actor2: int,
)
    requires
        other != key,
    ensures
        after_enable(t, key, actor).contains_key(key),
        after_enable(after_enable(t, key, actor), key, actor2) == after_enable(t, key, actor),
        !t.remove(key).contains_key(key),
        !t.contains_key(key) ==> after_enable(t, key, actor).remove(key) == t,
        after_enable(t, key, actor).contains_key(other) == t.contains_key(other),
        t.remove(key).contains_key(other) == t.contains_key(other),
{
    if !t.contains_key(key) {
        assert(t.insert(key, actor).remove(key) =~= t);
    }
}

/// Law: distinct `(guild, channel)` pairs have distinct keys in the table.
pub proof fn lemma_pair_key_injective(g1: GuildId, c1: ChannelId, g2: GuildId, c2: ChannelId)
    ensures
        pair_key(g1, c1) == pair_key(g2, c2) ==> g1 == g2 && c1 == c2,
{
}

} // verus!
