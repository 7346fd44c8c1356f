//! The tick as a sweep over the ids of the live schedule, one entry at a
//! time: what the loop in [`Scheduler::tick`](crate::scheduler::Scheduler::tick)
//! has done after each step, and why that adds up to a tick.

use vstd::prelude::*;
use crate::job::{JobDefinition, ScheduledJob};
use crate::scheduler::model::{
    after_tick, consistent, due_ids, entry_after_tick, ids_of, retiring_ids,
};
use crate::time::Instant;

verus! {

/// The live schedule after a tick at `now` has visited the entries named in
/// `visited`: those are as [`entry_after_tick`] leaves them, the others are
/// as they were.
pub(crate) open spec fn after_visits(
    live: Map<u128, ScheduledJob>,
    visited: Set<u128>,
    now: Instant,
) -> Map<u128, ScheduledJob> {
    Map::new(
        |id: u128|
            live.contains_key(id) && (visited.contains(id) ==> entry_after_tick(live[id], now)
                is Some),
        |id: u128|
            if visited.contains(id) {
                entry_after_tick(live[id], now)->0
            } else {
                live[id]
            },
    )
}

/// The definitions of the jobs among `ids` that fire in a tick at `now`, in
/// the order of `ids`.
pub(crate) open spec fn fired_among(
    live: Map<u128, ScheduledJob>,
    ids: Seq<u128>,
    now: Instant,
) -> Seq<JobDefinition>
    decreases ids.len(),
{
    if ids.len() == 0 {
        Seq::empty()
    } else if due_ids(live, now).contains(ids.last()) {
        fired_among(live, ids.drop_last(), now).push(live[ids.last()].definition)
    } else {
        fired_among(live, ids.drop_last(), now)
    }
}

/// The jobs among `ids` that fire in a tick at `now` for the last time, in
/// the order of `ids`.
pub(crate) open spec fn retired_among(
    live: Map<u128, ScheduledJob>,
    ids: Seq<u128>,
    now: Instant,
) -> Seq<u128>
    decreases ids.len(),
{
    if ids.len() == 0 {
        Seq::empty()
    } else if retiring_ids(live, now).contains(ids.last()) {
        retired_among(live, ids.drop_last(), now).push(ids.last())
    } else {
        retired_among(live, ids.drop_last(), now)
    }
}

/// Once every entry was visited, the tick is complete.
pub(crate) proof fn lemma_all_visited(live: Map<u128, ScheduledJob>, now: Instant)
    ensures
        after_visits(live, live.dom(), now) == after_tick(live, now),
{
    assert(after_visits(live, live.dom(), now) =~= after_tick(live, now));
}

/// One more visit of a tick: visiting an entry that was not visited yet
/// replaces it by what [`entry_after_tick`] makes of it, or removes it, and
/// touches nothing else.
pub(crate) proof fn lemma_visit_one_more(
    live: Map<u128, ScheduledJob>,
    visited: Set<u128>,
    id: u128,
    now: Instant,
)
    requires
        live.contains_key(id),
        !visited.contains(id),
    ensures
        after_visits(live, visited, now).contains_key(id),
        after_visits(live, visited, now)[id] == live[id],
        after_visits(live, visited.insert(id), now) == match entry_after_tick(live[id], now) {
            Some(entry) => after_visits(live, visited, now).insert(id, entry),
            None => after_visits(live, visited, now).remove(id),
        },
{
    let next = after_visits(live, visited.insert(id), now);
    match entry_after_tick(live[id], now) {
        Some(entry) => assert(next =~= after_visits(live, visited, now).insert(id, entry)),
        None => assert(next =~= after_visits(live, visited, now).remove(id)),
    }
}

/// The jobs that fire among a list of distinct scheduled ids: each due id of
/// the list fires exactly once, with the definition it has in the schedule,
/// and no other id fires.
pub(crate) proof fn lemma_fired_among(
    live: Map<u128, ScheduledJob>,
    ids: Seq<u128>,
    now: Instant,
)
    requires
        consistent(live),
        ids.no_duplicates(),
    ensures
        ids_of(fired_among(live, ids, now)).no_duplicates(),
        ids_of(fired_among(live, ids, now)).to_set() == due_ids(live, now).intersect(ids.to_set()),
        forall|j: int|
            0 <= j < fired_among(live, ids, now).len() ==> (#[trigger] fired_among(
                live,
                ids,
                now,
            )[j]) == live[fired_among(live, ids, now)[j].id].definition,
    decreases ids.len(),
{
    let fired = fired_among(live, ids, now);
    if ids.len() == 0 {
        assert(ids_of(fired).to_set() =~= due_ids(live, now).intersect(ids.to_set()));
    } else {
        let front = ids.drop_last();
        let last = ids.last();
        let before = fired_among(live, front, now);
        lemma_fired_among(live, front, now);
        assert(!front.contains(last)) by {
            if front.contains(last) {
                let k = choose|k: int| 0 <= k < front.len() && front[k] == last;
                assert(ids[k] == ids[ids.len() - 1]);
            }
        }
        assert(ids =~= front.push(last));
        front.lemma_push_to_set_commute(last);
        if due_ids(live, now).contains(last) {
            assert(ids_of(fired) =~= ids_of(before).push(last));
            assert(!ids_of(before).contains(last)) by {
                if ids_of(before).contains(last) {
                    assert(ids_of(before).to_set().contains(last));
                }
            }
            ids_of(before).lemma_push_to_set_commute(last);
        }
        assert(ids_of(fired).to_set() =~= due_ids(live, now).intersect(ids.to_set()));
    }
}

/// The jobs that retire among a list of distinct ids: each retiring id of the
/// list is named exactly once, and no other id is named.
pub(crate) proof fn lemma_retired_among(
    live: Map<u128, ScheduledJob>,
    ids: Seq<u128>,
    now: Instant,
)
    requires
        ids.no_duplicates(),
    ensures
        retired_among(live, ids, now).no_duplicates(),
        retired_among(live, ids, now).to_set() == retiring_ids(live, now).intersect(ids.to_set()),
    decreases ids.len(),
{
    let retired = retired_among(live, ids, now);
    if ids.len() == 0 {
        assert(retired.to_set() =~= retiring_ids(live, now).intersect(ids.to_set()));
    } else {
        let front = ids.drop_last();
        let last = ids.last();
        let before = retired_among(live, front, now);
        lemma_retired_among(live, front, now);
        assert(!front.contains(last)) by {
            if front.contains(last) {
                let k = choose|k: int| 0 <= k < front.len() && front[k] == last;
                assert(ids[k] == ids[ids.len() - 1]);
            }
        }
        assert(ids =~= front.push(last));
        front.lemma_push_to_set_commute(last);
        if retiring_ids(live, now).contains(last) {
            assert(!before.contains(last)) by {
                if before.contains(last) {
                    assert(before.to_set().contains(last));
                }
            }
            before.lemma_push_to_set_commute(last);
        }
        assert(retired.to_set() =~= retiring_ids(live, now).intersect(ids.to_set()));
    }
}

} // verus!
