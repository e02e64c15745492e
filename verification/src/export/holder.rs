//! Holding votes back until the item they belong to has been persisted.
//!
//! Votes cannot be persisted until the relevant item has been persisted. The holder keeps
//! track of the items persisted so far and of the votes still waiting for their item; once an
//! item has been persisted, the votes waiting for it are released.
use vstd::prelude::*;

use std::collections::{HashMap, HashSet};

use crate::export::vote::Vote;
use crate::ids::MessageId;

verus! {

broadcast use vstd::std_specs::hash::group_hash_axioms;

/// The state of a [`VoteHolder`]: the items persisted so far, and for each item not yet
/// persisted, the votes waiting for it in arrival order.
pub struct HolderView {
    pub persisted: Set<u64>,
    pub pending: Map<u64, Seq<Vote>>,
}

/// An event the holder reacts to.
pub enum HolderEvent {
    /// The item posted as this message has been persisted.
    ItemPersisted(MessageId),
    /// A vote has arrived.
    VoteReceived(Vote),
}

/// The votes of `votes` cast on item `k`, in order.
pub open spec fn votes_for(votes: Seq<Vote>, k: u64) -> Seq<Vote>
    decreases votes.len(),
{
    if votes.len() == 0 {
        Seq::empty()
    } else if votes.last().item_id.0 == k {
        votes_for(votes.drop_last(), k).push(votes.last())
    } else {
        votes_for(votes.drop_last(), k)
    }
}

/// The votes waiting for item `k` in state `s`.
pub open spec fn waiting(s: HolderView, k: u64) -> Seq<Vote> {
    if s.pending.contains_key(k) {
        s.pending[k]
    } else {
        Seq::empty()
    }
}

/// The holder's invariant: no vote waits for an item already persisted, and every vote waits
/// under the item it was cast on.
pub open spec fn holder_wf(s: HolderView) -> bool {
    forall|k: u64|
        #[trigger] s.pending.contains_key(k) ==> !s.persisted.contains(k) && forall|i: int|
            0 <= i < s.pending[k].len() ==> (#[trigger] s.pending[k][i]).item_id.0 == k
}

/// The holder before any event.
pub open spec fn initial_holder() -> HolderView {
    HolderView { persisted: Set::empty(), pending: Map::empty() }
}

/// Item `item` has been persisted: it is recorded, and the votes waiting for it are released.
pub open spec fn persist_step(s: HolderView, item: u64) -> (HolderView, Seq<Vote>) {
    (
        HolderView { persisted: s.persisted.insert(item), pending: s.pending.remove(item) },
        waiting(s, item),
    )
}

/// `vote` has arrived: it is released at once if its item has been persisted, and waits for
/// its item otherwise.
pub open spec fn vote_step(s: HolderView, vote: Vote) -> (HolderView, Seq<Vote>) {
    let k = vote.item_id.0;
    if s.persisted.contains(k) {
        (s, seq![vote])
    } else {
        (
            HolderView {
                persisted: s.persisted,
                pending: s.pending.insert(k, waiting(s, k).push(vote)),
            },
            Seq::empty(),
        )
    }
}

/// The effect of one event: the next state and the votes released, in order.
pub open spec fn holder_step(s: HolderView, e: HolderEvent) -> (HolderView, Seq<Vote>) {
    match e {
        HolderEvent::ItemPersisted(item) => persist_step(s, item.0),
        HolderEvent::VoteReceived(vote) => vote_step(s, vote),
    }
}

/// The state after `events`, and all votes released along the way, in order.
pub open spec fn holder_run(events: Seq<HolderEvent>) -> (HolderView, Seq<Vote>)
    decreases events.len(),
{
    if events.len() == 0 {
        (initial_holder(), Seq::empty())
    } else {
        let prev = holder_run(events.drop_last());
        let next = holder_step(prev.0, events.last());
        (next.0, prev.1 + next.1)
    }
}

/// The votes that arrived in `events`, in order.
pub open spec fn received_votes(events: Seq<HolderEvent>) -> Seq<Vote>
    decreases events.len(),
{
    if events.len() == 0 {
        Seq::empty()
    } else {
        match events.last() {
            HolderEvent::VoteReceived(vote) => received_votes(events.drop_last()).push(vote),
            HolderEvent::ItemPersisted(_) => received_votes(events.drop_last()),
        }
    }
}

/// Whether `e` reports item `k` as persisted.
pub open spec fn persists(e: HolderEvent, k: u64) -> bool {
    match e {
        HolderEvent::ItemPersisted(item) => item.0 == k,
        HolderEvent::VoteReceived(_) => false,
    }
}

/// Whether `events` reports item `k` as persisted.
pub open spec fn reports_persisted(events: Seq<HolderEvent>, k: u64) -> bool {
    exists|i: int|
        0 <= i < events.len() && persists(#[trigger] events[i], k)
}

pub proof fn lemma_votes_for_append(a: Seq<Vote>, b: Seq<Vote>, k: u64)
    ensures
        votes_for(a + b, k) == votes_for(a, k) + votes_for(b, k),
    decreases b.len(),
{
    if b.len() == 0 {
        assert(a + b =~= a);
        assert(votes_for(a, k) + votes_for(b, k) =~= votes_for(a, k));
    } else {
        lemma_votes_for_append(a, b.drop_last(), k);
        assert((a + b).drop_last() =~= a + b.drop_last());
        assert((a + b).last() == b.last());
        if b.last().item_id.0 == k {
            assert(votes_for(a, k) + votes_for(b.drop_last(), k).push(b.last()) =~= (votes_for(
                a,
                k,
            ) + votes_for(b.drop_last(), k)).push(b.last()));
        }
    }
}

proof fn lemma_votes_for_all(votes: Seq<Vote>, k: u64)
    requires
        forall|i: int| 0 <= i < votes.len() ==> (#[trigger] votes[i]).item_id.0 == k,
    ensures
        votes_for(votes, k) == votes,
    decreases votes.len(),
{
    if votes.len() > 0 {
        lemma_votes_for_all(votes.drop_last(), k);
        assert(votes.drop_last().push(votes.last()) =~= votes);
    }
}

proof fn lemma_votes_for_none(votes: Seq<Vote>, k: u64)
    requires
        forall|i: int| 0 <= i < votes.len() ==> (#[trigger] votes[i]).item_id.0 != k,
    ensures
        votes_for(votes, k) == Seq::<Vote>::empty(),
    decreases votes.len(),
{
    if votes.len() > 0 {
        lemma_votes_for_none(votes.drop_last(), k);
    }
}

/// Law: every event keeps the holder's invariant, and every vote released by an event belongs
/// to an item that is persisted once the event has been handled.
pub proof fn lemma_step_releases_only_persisted(s: HolderView, e: HolderEvent)
    requires
        holder_wf(s),
    ensures
        holder_wf(holder_step(s, e).0),
        forall|i: int|
            0 <= i < holder_step(s, e).1.len() ==> holder_step(s, e).0.persisted.contains(
                (#[trigger] holder_step(s, e).1[i]).item_id.0,
            ),
{
    let next = holder_step(s, e);
    match e {
        HolderEvent::ItemPersisted(item) => {
            assert forall|i: int| 0 <= i < next.1.len() implies next.0.persisted.contains(
                (#[trigger] next.1[i]).item_id.0,
            ) by {
                assert(s.pending.contains_key(item.0));
                assert(s.pending[item.0][i].item_id.0 == item.0);
            }
        },
        HolderEvent::VoteReceived(vote) => {
            let k = vote.item_id.0;
            if !s.persisted.contains(k) {
                assert forall|j: u64| #[trigger] next.0.pending.contains_key(j) implies !next.0.persisted.contains(j)
                    && forall|i: int|
                    0 <= i < next.0.pending[j].len() ==> (#[trigger] next.0.pending[j][i]).item_id.0
                        == j by {
                    if j == k {
                        assert forall|i: int| 0 <= i < next.0.pending[j].len() implies (
                        #[trigger] next.0.pending[j][i]).item_id.0 == j by {
                            if i < waiting(s, k).len() {
                                assert(s.pending.contains_key(k));
                                assert(s.pending[k][i] == next.0.pending[j][i]);
                            }
                        }
                    }
                }
            }
        },
    }
}

/// The holder's invariant holds after any sequence of events.
pub proof fn lemma_run_wf(events: Seq<HolderEvent>)
    ensures
        holder_wf(holder_run(events).0),
    decreases events.len(),
{
    if events.len() > 0 {
        lemma_run_wf(events.drop_last());
        lemma_step_releases_only_persisted(holder_run(events.drop_last()).0, events.last());
    }
}

/// Law: after any sequence of events, each item's votes are accounted for exactly once and in
/// arrival order: those released, followed by those still waiting, are precisely the votes
/// that arrived for the item. An item is persisted exactly when an event reported it so; the
/// votes of a persisted item no longer wait, and no vote of an item not yet persisted has been
/// released.
pub proof fn lemma_run_accounts_for_every_vote(events: Seq<HolderEvent>, k: u64)
    ensures
        votes_for(holder_run(events).1, k) + waiting(holder_run(events).0, k) == votes_for(
            received_votes(events),
            k,
        ),
        holder_run(events).0.persisted.contains(k) <==> reports_persisted(events, k),
        holder_run(events).0.persisted.contains(k) ==> waiting(holder_run(events).0, k).len()
            == 0,
        !holder_run(events).0.persisted.contains(k) ==> votes_for(holder_run(events).1, k).len()
            == 0,
    decreases events.len(),
{
    if events.len() == 0 {
        assert(Seq::<Vote>::empty() + Seq::<Vote>::empty() =~= Seq::<Vote>::empty());
    } else {
        let prefix = events.drop_last();
        let e = events.last();
        lemma_run_accounts_for_every_vote(prefix, k);
        lemma_run_wf(prefix);
        let (s, r) = holder_run(prefix);
        let (s2, r2) = holder_step(s, e);
        assert(holder_run(events) == (s2, r + r2));
        lemma_votes_for_append(r, r2, k);
        assert forall|i: int| 0 <= i < prefix.len() implies #[trigger] prefix[i] == events[i] by {}
        match e {
            HolderEvent::ItemPersisted(item) => {
                let w = waiting(s, item.0);
                assert(received_votes(events) == received_votes(prefix));
                if s.pending.contains_key(item.0) {
                    assert forall|i: int| 0 <= i < w.len() implies (#[trigger] w[i]).item_id.0
                        == item.0 by {}
                }
                if item.0 == k {
                    lemma_votes_for_all(w, k);
                    assert(waiting(s2, k) =~= Seq::<Vote>::empty());
                    assert(votes_for(r, k) + w + Seq::<Vote>::empty() =~= votes_for(r, k) + w);
                    assert(events[events.len() - 1] == e);
                } else {
                    lemma_votes_for_none(w, k);
                    assert(waiting(s2, k) == waiting(s, k));
                    assert(votes_for(r, k) + Seq::<Vote>::empty() =~= votes_for(r, k));
                    if reports_persisted(events, k) {
                        let i = choose|i: int|
                            0 <= i < events.len() && persists(#[trigger] events[i], k);
                        assert(i < prefix.len());
                        assert(prefix[i] == events[i]);
                    }
                    if reports_persisted(prefix, k) {
                        let i = choose|i: int|
                            0 <= i < prefix.len() && persists(#[trigger] prefix[i], k);
                        assert(events[i] == prefix[i]);
                    }
                }
            },
            HolderEvent::VoteReceived(vote) => {
                assert(received_votes(events) == received_votes(prefix).push(vote));
                lemma_votes_for_append(received_votes(prefix), seq![vote], k);
                assert(received_votes(prefix).push(vote) =~= received_votes(prefix) + seq![vote]);
                let kv = vote.item_id.0;
                reveal_with_fuel(votes_for, 2);
                assert(seq![vote].drop_last() =~= Seq::<Vote>::empty());
                if reports_persisted(events, k) {
                    let i = choose|i: int|
                        0 <= i < events.len() && persists(#[trigger] events[i], k);
                    assert(i < prefix.len());
                    assert(prefix[i] == events[i]);
                }
                if reports_persisted(prefix, k) {
                    let i = choose|i: int|
                        0 <= i < prefix.len() && persists(#[trigger] prefix[i], k);
                    assert(events[i] == prefix[i]);
                }
                if s.persisted.contains(kv) {
                    if kv == k {
                        assert(votes_for(r, k) + seq![vote] + Seq::<Vote>::empty() =~= votes_for(
                            r,
                            k,
                        ) + Seq::<Vote>::empty() + seq![vote]);
                    } else {
                        assert(votes_for(r, k) + Seq::<Vote>::empty() =~= votes_for(r, k));
                    }
                } else {
                    if kv == k {
                        assert(waiting(s2, k) == waiting(s, k).push(vote));
                        assert(votes_for(r, k) + Seq::<Vote>::empty() + waiting(s, k).push(vote)
                            =~= (votes_for(r, k) + waiting(s, k)) + seq![vote]);
                    } else {
                        assert(waiting(s2, k) == waiting(s, k));
                        assert(votes_for(r, k) + Seq::<Vote>::empty() =~= votes_for(r, k));
                    }
                }
            },
        }
    }
}

/// Holds votes until the items they belong to have been persisted.
pub struct VoteHolder {
    persisted_items: HashSet<u64>,
    pending_votes: HashMap<u64, Vec<Vote>>,
}

impl View for VoteHolder {
    type V = HolderView;

    closed spec fn view(&self) -> HolderView {
        HolderView {
            persisted: self.persisted_items@,
            pending: self.pending_votes@.map_values(|v: Vec<Vote>| v@),
        }
    }
}

impl VoteHolder {
    /// Whether the holder's invariant holds.
    pub open spec fn wf(&self) -> bool {
        holder_wf(self@)
    }

    /// A holder that has seen no event.
    pub fn new() -> (h: VoteHolder)
        ensures
            h@ == initial_holder(),
            h.wf(),
    {
        let h = VoteHolder { persisted_items: HashSet::new(), pending_votes: HashMap::new() };
        assert(h@.pending =~= Map::<u64, Seq<Vote>>::empty());
        h
    }

    /// Records that `item` has been persisted; returns the votes that were waiting for it, in
    /// the order they arrived.
    pub fn item_persisted(&mut self, item: MessageId) -> (released: Vec<Vote>)
        requires
            old(self).wf(),
        ensures
            final(self).wf(),
            (final(self)@, released@) == persist_step(old(self)@, item.0),
    {
        let ghost pre = self@;
        self.persisted_items.insert(item.0);
        let removed = self.pending_votes.remove(&item.0);
        assert(self@.pending =~= pre.pending.remove(item.0));
        proof {
            lemma_step_releases_only_persisted(pre, HolderEvent::ItemPersisted(item));
        }
        match removed {
            Some(votes) => votes,
            None => Vec::new(),
        }
    }

    /// Takes in `vote`: returns it at once if its item has been persisted, and otherwise keeps
    /// it until its item is.
    pub fn vote_received(&mut self, vote: Vote) -> (released: Option<Vote>)
        requires
            old(self).wf(),
        ensures
            final(self).wf(),
            final(self)@ == vote_step(old(self)@, vote).0,
            match released {
                Some(v) => vote_step(old(self)@, vote).1 == seq![v],
                None => vote_step(old(self)@, vote).1 == Seq::<Vote>::empty(),
            },
    {
        let ghost pre = self@;
        let ghost v0 = vote;
        proof {
            lemma_step_releases_only_persisted(pre, HolderEvent::VoteReceived(vote));
        }
        let k = vote.item_id.0;
        if self.persisted_items.contains(&k) {
            return Some(vote);
        }
        let waiting_votes = match self.pending_votes.remove(&k) {
            Some(mut votes) => {
                votes.push(vote);
                votes
            },
            None => {
                let mut votes = Vec::new();
                votes.push(vote);
                votes
            },
        };
        self.pending_votes.insert(k, waiting_votes);
        assert(self@.pending =~= pre.pending.insert(k, waiting(pre, k).push(v0)));
        None
    }
}

} // verus!
