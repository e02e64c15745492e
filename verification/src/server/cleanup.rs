//! `/daas cleanup`: deciding which of a channel's messages are stale exports.
//!
//! The bot posts each export as a message with an attachment named [`EXPORT_FILE_NAME`]. Of the
//! export messages the bot has posted in a channel, cleanup keeps the most recent one and
//! deletes the others; no other message is touched.
use vstd::prelude::*;

use crate::ids::{MessageId, UserId};
use crate::server::error::{join_lines, lines_text};
use crate::server::followup::EXPORT_FILE_NAME;
use crate::text::{decimal, decimal_string, str_eq};

verus! {

/// What cleanup reads of a message of the channel.
pub struct ChannelMessage {
    pub id: MessageId,
    pub author_id: UserId,
    /// The file names of the message's attachments.
    pub attachment_names: Vec<String>,
}

/// Whether `m` is an export posted by the bot user `bot`: the bot wrote it and it carries an
/// attachment named [`EXPORT_FILE_NAME`].
pub open spec fn is_export_spec(m: ChannelMessage, bot: UserId) -> bool {
    &&& m.author_id == bot
    &&& exists|i: int|
        0 <= i < m.attachment_names.len() && (#[trigger] m.attachment_names@[i])@
            == EXPORT_FILE_NAME@
}

/// The positions in `ms` of the exports posted by `bot`, in the order of `ms`.
pub open spec fn export_positions(ms: Seq<ChannelMessage>, bot: UserId) -> Seq<int>
    decreases ms.len(),
{
    if ms.len() == 0 {
        Seq::empty()
    } else {
        let rest = export_positions(ms.drop_last(), bot);
        if is_export_spec(ms.last(), bot) {
            rest.push(ms.len() - 1)
        } else {
            rest
        }
    }
}

/// The ids of the exports to delete from `ms`, a channel's messages from the most recent to the
/// oldest: every export posted by `bot` but the first, that is the most recent, in the order
/// of `ms`.
pub open spec fn stale_exports(ms: Seq<ChannelMessage>, bot: UserId) -> Seq<MessageId> {
    let p = export_positions(ms, bot);
    if p.len() == 0 {
        Seq::empty()
    } else {
        p.subrange(1, p.len() as int).map_values(|i: int| ms[i].id)
    }
}

/// Whether `m` is an export posted by `bot` (see [`is_export_spec`]).
pub fn is_export(m: &ChannelMessage, bot: UserId) -> (r: bool)
    ensures
        r == is_export_spec(*m, bot),
{
    if m.author_id.0 != bot.0 {
        return false;
    }
    assert(m.author_id == bot);
    let mut i: usize = 0;
    while i < m.attachment_names.len()
        invariant
            m.author_id == bot,
            i <= m.attachment_names.len(),
            forall|j: int|
                0 <= j < i ==> (#[trigger] m.attachment_names@[j])@ != EXPORT_FILE_NAME@,
        decreases m.attachment_names.len() - i,
    {
        if str_eq(m.attachment_names[i].as_str(), EXPORT_FILE_NAME) {
            assert(m.attachment_names@[i as int]@ == EXPORT_FILE_NAME@);
            return true;
        }
        i = i + 1;
    }
    false
}

/// The positions of `ms` are those of the exports: each lies in `ms` and is an export, they
/// increase, and every export of `ms` is among them.
proof fn lemma_export_positions(ms: Seq<ChannelMessage>, bot: UserId)
    ensures
        forall|k: int|
            0 <= k < export_positions(ms, bot).len() ==> 0 <= #[trigger] export_positions(
                ms,
                bot,
            )[k] < ms.len() && is_export_spec(ms[export_positions(ms, bot)[k]], bot),
        forall|k: int, l: int|
            0 <= k < l < export_positions(ms, bot).len() ==> #[trigger] export_positions(ms, bot)[k]
                < #[trigger] export_positions(ms, bot)[l],
        forall|j: int|
            0 <= j < ms.len() && is_export_spec(#[trigger] ms[j], bot) ==> export_positions(
                ms,
                bot,
            ).contains(j),
    decreases ms.len(),
{
    if ms.len() > 0 {
        let init = ms.drop_last();
        lemma_export_positions(init, bot);
        let rest = export_positions(init, bot);
        assert forall|j: int| 0 <= j < ms.len() && is_export_spec(#[trigger] ms[j], bot) implies export_positions(
            ms,
            bot,
        ).contains(j) by {
            if j < ms.len() - 1 {
                assert(init[j] == ms[j]);
                let k = choose|k: int| 0 <= k < rest.len() && rest[k] == j;
                if is_export_spec(ms.last(), bot) {
                    assert(rest.push(ms.len() - 1)[k] == j);
                }
            } else {
                assert(export_positions(ms, bot).last() == j);
            }
        }
        assert forall|k: int| 0 <= k < export_positions(ms, bot).len() implies 0
            <= #[trigger] export_positions(ms, bot)[k] < ms.len() && is_export_spec(
            ms[export_positions(ms, bot)[k]],
            bot,
        ) by {
            if k < rest.len() {
                assert(init[rest[k]] == ms[rest[k]]);
            }
        }
    }
}

/// The ids of the exports to delete from `messages`, the channel's messages from the most
/// recent to the oldest (see [`stale_exports`]).
pub fn exports_to_delete(messages: &Vec<ChannelMessage>, bot: UserId) -> (ids: Vec<MessageId>)
    ensures
        ids@ == stale_exports(messages@, bot),
{
    let ghost ms = messages@;
    let mut ids: Vec<MessageId> = Vec::new();
    let mut seen = false;
    let mut i: usize = 0;
    while i < messages.len()
        invariant
            i <= messages.len(),
            ms == messages@,
            seen == (export_positions(ms.take(i as int), bot).len() > 0),
            ids@ == stale_exports(ms.take(i as int), bot),
        decreases messages.len() - i,
    {
        let ghost before = ms.take(i as int);
        let ghost after = ms.take(i + 1);
        proof {
            assert(after.drop_last() =~= before);
            assert(after.last() == ms[i as int]);
        }
        if is_export(&messages[i], bot) {
            if seen {
                ids.push(messages[i].id);
            }
            seen = true;
        }
        proof {
            let p = export_positions(before, bot);
            let q = export_positions(after, bot);
            lemma_export_positions(before, bot);
            assert forall|k: int| 0 <= k < p.len() implies #[trigger] after[p[k]] == before[p[k]] by {}
            if p.len() > 0 {
                assert(p.subrange(1, p.len() as int).map_values(|j: int| before[j]) =~= p.subrange(
                    1,
                    p.len() as int,
                ).map_values(|j: int| after[j]));
                if is_export_spec(ms[i as int], bot) {
                    assert(q.subrange(1, q.len() as int) =~= p.subrange(1, p.len() as int).push(
                        i as int,
                    ));
                    assert(stale_exports(after, bot) =~= stale_exports(before, bot).push(
                        messages@[i as int].id,
                    ));
                }
            } else if is_export_spec(ms[i as int], bot) {
                assert(q =~= seq![i as int]);
                assert(stale_exports(after, bot) =~= Seq::<MessageId>::empty());
            }
        }
        i = i + 1;
    }
    proof {
        assert(ms.take(messages.len() as int) =~= ms);
    }
    ids
}

/// Law: cleanup deletes only exports posted by the bot, each at most once, and all of them
/// but the most recent, which it keeps.
pub proof fn lemma_cleanup_keeps_only_the_latest_export(ms: Seq<ChannelMessage>, bot: UserId)
    requires
        forall|a: int, b: int| 0 <= a < b < ms.len() ==> (#[trigger] ms[a]).id != (#[trigger] ms[b]).id,
    ensures
        forall|k: int|
            #![trigger stale_exports(ms, bot)[k]]
            0 <= k < stale_exports(ms, bot).len() ==> exists|j: int|
                0 <= j < ms.len() && is_export_spec(ms[j], bot) && (#[trigger] ms[j]).id
                    == stale_exports(ms, bot)[k],
        forall|k: int, l: int|
            0 <= k < l < stale_exports(ms, bot).len() ==> #[trigger] stale_exports(ms, bot)[k]
                != #[trigger] stale_exports(ms, bot)[l],
        forall|j: int|
            0 <= j < ms.len() && is_export_spec(#[trigger] ms[j], bot) ==> (stale_exports(
                ms,
                bot,
            ).contains(ms[j].id) <==> exists|e: int|
                0 <= e < j && is_export_spec(#[trigger] ms[e], bot)),
{
    lemma_export_positions(ms, bot);
    let p = export_positions(ms, bot);
    let st = stale_exports(ms, bot);
    if p.len() > 0 {
        assert forall|k: int| #![trigger st[k]] 0 <= k < st.len() implies exists|j: int|
            0 <= j < ms.len() && is_export_spec(ms[j], bot) && (#[trigger] ms[j]).id == st[k] by {
            assert(st[k] == ms[p[k + 1]].id);
            assert(0 <= p[k + 1] < ms.len());
        }
        assert forall|k: int, l: int| 0 <= k < l < st.len() implies #[trigger] st[k]
            != #[trigger] st[l] by {
            assert(p[k + 1] < p[l + 1]);
            assert(st[k] == ms[p[k + 1]].id && st[l] == ms[p[l + 1]].id);
        }
        assert forall|j: int| 0 <= j < ms.len() && is_export_spec(#[trigger] ms[j], bot) implies (
        st.contains(ms[j].id) <==> exists|e: int| 0 <= e < j && is_export_spec(#[trigger] ms[e], bot)) by {
            let kj = choose|k: int| 0 <= k < p.len() && p[k] == j;
            if st.contains(ms[j].id) {
                let k = choose|k: int| 0 <= k < st.len() && st[k] == ms[j].id;
                assert(st[k] == ms[p[k + 1]].id);
                assert(p[k + 1] == j);
                assert(p[0] < p[k + 1]);
                assert(is_export_spec(ms[p[0]], bot));
            }
            if exists|e: int| 0 <= e < j && is_export_spec(#[trigger] ms[e], bot) {
                let e = choose|e: int| 0 <= e < j && is_export_spec(#[trigger] ms[e], bot);
                let ke = choose|k: int| 0 <= k < p.len() && p[k] == e;
                if kj == 0 {
                    assert(p[0] <= p[ke]);
                }
                assert(kj >= 1);
                assert(st[kj - 1] == ms[p[kj]].id);
            }
        }
    } else {
        assert forall|j: int| 0 <= j < ms.len() && is_export_spec(#[trigger] ms[j], bot) implies (
        st.contains(ms[j].id) <==> exists|e: int| 0 <= e < j && is_export_spec(#[trigger] ms[e], bot)) by {
            assert(p.contains(j));
        }
    }
}

/// The follow-up once cleanup has deleted `removed` exports.
pub fn cleanup_done_content(removed: u64) -> (r: String)
    ensures
        r@ == "Removed "@ + decimal(removed as nat) + " old exports from this channel."@,
{
    let mut r = "Removed ".to_owned();
    let n = decimal_string(removed);
    r.append(n.as_str());
    r.append(" old exports from this channel.");
    r
}

/// The opening of the follow-up for a failed cleanup.
pub const CLEANUP_FAILED: &'static str = "daas-bot encountered a problem while cleaning up exports:\n\n";

/// The follow-up for a failed cleanup: the opening, then the messages of the error and of
/// each error that caused it, one per line.
pub fn cleanup_failure_content(error_lines: &Vec<String>) -> (r: String)
    ensures
        r@ == CLEANUP_FAILED@ + lines_text(error_lines@.map_values(|l: String| l@)),
{
    let mut r = CLEANUP_FAILED.to_owned();
    let body = join_lines(error_lines);
    r.append(body.as_str());
    r
}

} // verus!
