//! What holds of every live schedule: the laws of loading, enrolling and
//! ticking, proved of the functions in [`model`](crate::scheduler::model).

use vstd::prelude::*;
use crate::job::{JobDefinition, ScheduledJob};
use crate::schedule::{lemma_next_run_is_later, Schedule};
use crate::scheduler::model::{
    added, after_load, after_tick, consistent, due_ids, enrolled, ids_of, on_schedule, planned,
    removed, retiring_ids, ticked,
};
use crate::scheduler::{SchedulerError, TickReport};
use crate::time::Instant;

verus! {

/// A job under a name without a handler is refused in the first step of
/// adding it: the outcome is the error that names the job, and no definition
/// comes into being that could be stored.
pub proof fn lemma_unknown_name_is_refused(
    name: String,
    schedule: Schedule,
    args: serde_json::Value,
    id: u128,
    now: Instant,
)
    ensures
        planned(false, name, schedule, args, id, now) == Err::<JobDefinition, SchedulerError>(
            (SchedulerError::UnknownJob { name }),
        ),
{
}

/// A one-shot job whose instant is not ahead of the moment it is added is
/// stored but not scheduled: the first step hands out its definition for
/// storage, and the second step, after storage succeeded, leaves the live
/// schedule as it was and reports success.
pub proof fn lemma_past_once_is_stored_not_scheduled(
    before: Map<u128, ScheduledJob>,
    name: String,
    at: Instant,
    args: serde_json::Value,
    id: u128,
    now: Instant,
    after: Map<u128, ScheduledJob>,
    outcome: Result<JobDefinition, SchedulerError>,
)
    requires
        at@ <= now@,
        added(
            before,
            planned(true, name, Schedule::Once(at), args, id, now)->Ok_0,
            Ok(()),
            after,
            outcome,
        ),
    ensures
        planned(true, name, Schedule::Once(at), args, id, now) is Ok,
        after == before,
        outcome is Ok,
{
}

/// A removal that storage carried out takes the job out of the live schedule
/// and leaves every other job alone. It reports success if the job was
/// scheduled, and the missing id if it was not.
pub proof fn lemma_removal(
    before: Map<u128, ScheduledJob>,
    id: u128,
    after: Map<u128, ScheduledJob>,
    outcome: Result<(), SchedulerError>,
)
    requires
        removed(before, id, Ok(()), after, outcome),
    ensures
        !after.contains_key(id),
        forall|other: u128|
            other != id ==> after.contains_key(other) == before.contains_key(other) && (
            after.contains_key(other) ==> after[other] == before[other]),
        before.contains_key(id) ==> outcome is Ok,
        !before.contains_key(id) ==> outcome == Err::<(), SchedulerError>(
            (SchedulerError::NotFound { id }),
        ),
{
}

/// A removal that storage could not carry out changes nothing and passes the
/// failure on.
pub proof fn lemma_failed_removal(
    before: Map<u128, ScheduledJob>,
    id: u128,
    detail: String,
    after: Map<u128, ScheduledJob>,
    outcome: Result<(), SchedulerError>,
)
    requires
        removed(before, id, Err(detail), after, outcome),
    ensures
        after == before,
        outcome == Err::<(), SchedulerError>((SchedulerError::Persistence { detail })),
{
}

/// A job whose one-shot instant is not ahead of `now` is not scheduled when
/// it is enrolled: the live schedule stays as it was.
pub proof fn lemma_past_once_is_not_scheduled(
    live: Map<u128, ScheduledJob>,
    definition: JobDefinition,
    now: Instant,
)
    requires
        definition.schedule matches Schedule::Once(at) && at@ <= now@,
    ensures
        enrolled(live, definition, now) == live,
{
}

/// An entry that is on schedule is to run next strictly after the instant it
/// last ran.
pub proof fn lemma_next_run_follows_last_run(job: ScheduledJob)
    requires
        on_schedule(job),
    ensures
        job.last_run matches Some(last) ==> job.next_run@ > last@,
{
    if job.last_run is Some {
        lemma_next_run_is_later(job.definition.schedule, job.last_run->0);
    }
}

/// Enrolling a definition keeps a consistent schedule consistent.
pub proof fn lemma_enrolled_keeps_consistent(
    live: Map<u128, ScheduledJob>,
    definition: JobDefinition,
    now: Instant,
)
    requires
        consistent(live),
    ensures
        consistent(enrolled(live, definition, now)),
{
}

/// A load keeps a consistent schedule consistent.
pub proof fn lemma_load_keeps_consistent(
    live: Map<u128, ScheduledJob>,
    definitions: Seq<JobDefinition>,
    now: Instant,
)
    requires
        consistent(live),
    ensures
        consistent(after_load(live, definitions, now)),
    decreases definitions.len(),
{
    if definitions.len() > 0 {
        lemma_load_keeps_consistent(live, definitions.drop_last(), now);
    }
}

/// What a load at `now` leaves in the live schedule: the ids that were there
/// before, and the ids of the definitions whose schedule fires after `now`.
pub proof fn lemma_load_domain(
    live: Map<u128, ScheduledJob>,
    definitions: Seq<JobDefinition>,
    now: Instant,
    id: u128,
)
    ensures
        after_load(live, definitions, now).contains_key(id) <==> live.contains_key(id) || exists|
            i: int,
        |
            0 <= i < definitions.len() && (#[trigger] definitions[i]).id == id
                && definitions[i].schedule.spec_next_run(now) is Some,
    decreases definitions.len(),
{
    if definitions.len() > 0 {
        let front = definitions.drop_last();
        lemma_load_domain(live, front, now, id);
        if exists|i: int|
            0 <= i < front.len() && (#[trigger] front[i]).id == id
                && front[i].schedule.spec_next_run(now) is Some {
            let i = choose|i: int|
                0 <= i < front.len() && (#[trigger] front[i]).id == id
                    && front[i].schedule.spec_next_run(now) is Some;
            assert(definitions[i] == front[i]);
        }
        if exists|i: int|
            0 <= i < definitions.len() && (#[trigger] definitions[i]).id == id
                && definitions[i].schedule.spec_next_run(now) is Some {
            let i = choose|i: int|
                0 <= i < definitions.len() && (#[trigger] definitions[i]).id == id
                    && definitions[i].schedule.spec_next_run(now) is Some;
            if i < front.len() {
                assert(front[i] == definitions[i]);
            }
        }
    }
}

/// A load into an empty schedule leaves exactly the stored jobs that will
/// fire after `now`: an id is scheduled if and only if one of the definitions
/// with that id has a next run.
pub proof fn lemma_load_is_exact(definitions: Seq<JobDefinition>, now: Instant, id: u128)
    ensures
        after_load(Map::<u128, ScheduledJob>::empty(), definitions, now).contains_key(id)
            <==> exists|i: int|
            0 <= i < definitions.len() && (#[trigger] definitions[i]).id == id
                && definitions[i].schedule.spec_next_run(now) is Some,
{
    lemma_load_domain(Map::<u128, ScheduledJob>::empty(), definitions, now, id);
}

/// What a load at `now` files under the id of a definition whose schedule
/// fires after `now`, where no two definitions share an id: that definition,
/// never run, with the next run its schedule names.
pub proof fn lemma_load_entry(
    live: Map<u128, ScheduledJob>,
    definitions: Seq<JobDefinition>,
    now: Instant,
    i: int,
)
    requires
        ids_of(definitions).no_duplicates(),
        0 <= i < definitions.len(),
        definitions[i].schedule.spec_next_run(now) is Some,
    ensures
        after_load(live, definitions, now).contains_key(definitions[i].id),
        after_load(live, definitions, now)[definitions[i].id] == (ScheduledJob {
            definition: definitions[i],
            last_run: None,
            next_run: definitions[i].schedule.spec_next_run(now)->0,
        }),
    decreases definitions.len(),
{
    let front = definitions.drop_last();
    let last = definitions.last();
    if i < front.len() {
        assert(ids_of(front) =~= ids_of(definitions).drop_last());
        assert(front[i] == definitions[i]);
        lemma_load_entry(live, front, now, i);
        assert(ids_of(definitions)[i] != ids_of(definitions)[definitions.len() - 1]);
    }
}

/// A tick leaves a consistent schedule consistent.
pub proof fn lemma_tick_keeps_consistent(live: Map<u128, ScheduledJob>, now: Instant)
    requires
        consistent(live),
    ensures
        consistent(after_tick(live, now)),
{
    let next = after_tick(live, now);
    assert(next.dom().subset_of(live.dom()));
    vstd::set_lib::lemma_len_subset(next.dom(), live.dom());
    assert forall|id: u128| #[trigger] next.contains_key(id) implies next[id].definition.id == id
        && on_schedule(next[id]) by {
        assert(live.contains_key(id));
    }
}

/// What a tick at `now` does to a job that is due: afterwards the job is
/// either still scheduled, with `now` as its last run and a next run strictly
/// after `now`, or it is gone from the schedule and among the retiring ids,
/// which the host deletes from storage.
pub proof fn lemma_tick_advances_or_retires(live: Map<u128, ScheduledJob>, now: Instant, id: u128)
    requires
        live.contains_key(id),
        live[id].spec_is_due(now),
    ensures
        due_ids(live, now).contains(id),
        after_tick(live, now).contains_key(id) ==> {
            &&& after_tick(live, now)[id].next_run@ > now@
            &&& after_tick(live, now)[id].last_run == Some(now)
            &&& after_tick(live, now)[id].definition == live[id].definition
            &&& !retiring_ids(live, now).contains(id)
        },
        !after_tick(live, now).contains_key(id) ==> retiring_ids(live, now).contains(id),
{
    lemma_next_run_is_later(live[id].definition.schedule, now);
}

/// A tick fires every due job exactly once: the report holds the job at one
/// place and at no other, with the definition it had in the schedule.
pub proof fn lemma_tick_fires_due_jobs_once(
    before: Map<u128, ScheduledJob>,
    now: Instant,
    after: Map<u128, ScheduledJob>,
    report: TickReport,
    id: u128,
)
    requires
        ticked(before, now, after, report),
        before.contains_key(id),
        before[id].spec_is_due(now),
    ensures
        exists|j: int|
            {
                &&& 0 <= j < report.fired@.len()
                &&& (#[trigger] report.fired@[j]).id == id
                &&& report.fired@[j] == before[id].definition
                &&& forall|k: int|
                    0 <= k < report.fired@.len() && (#[trigger] report.fired@[k]).id == id ==> k
                        == j
            },
{
    let ids = ids_of(report.fired@);
    assert(due_ids(before, now).contains(id));
    assert(ids.to_set().contains(id));
    let j = choose|j: int| 0 <= j < ids.len() && ids[j] == id;
    assert(report.fired@[j].id == id);
    assert forall|k: int|
        0 <= k < report.fired@.len() && (#[trigger] report.fired@[k]).id == id implies k == j by {
        assert(ids[k] == ids[j]);
    }
}

/// A tick fires no job that is not due.
pub proof fn lemma_tick_fires_only_due_jobs(
    before: Map<u128, ScheduledJob>,
    now: Instant,
    after: Map<u128, ScheduledJob>,
    report: TickReport,
    j: int,
)
    requires
        ticked(before, now, after, report),
        0 <= j < report.fired@.len(),
    ensures
        before.contains_key(report.fired@[j].id),
        before[report.fired@[j].id].spec_is_due(now),
{
    let ids = ids_of(report.fired@);
    assert(ids[j] == report.fired@[j].id);
    assert(ids.to_set().contains(ids[j]));
}

/// What a tick at `now` does to a job that is not due: nothing. The job does
/// not fire, does not retire, and keeps its entry as it is.
pub proof fn lemma_tick_spares_the_rest(live: Map<u128, ScheduledJob>, now: Instant, id: u128)
    requires
        live.contains_key(id),
        !live[id].spec_is_due(now),
    ensures
        !due_ids(live, now).contains(id),
        !retiring_ids(live, now).contains(id),
        after_tick(live, now).contains_key(id),
        after_tick(live, now)[id] == live[id],
{
}

/// After a tick at `now` no job in the schedule is due at `now` any more.
pub proof fn lemma_tick_leaves_nothing_due(live: Map<u128, ScheduledJob>, now: Instant)
    ensures
        due_ids(after_tick(live, now), now) == Set::<u128>::empty(),
{
    let next = after_tick(live, now);
    assert forall|id: u128| !due_ids(next, now).contains(id) by {
        if next.contains_key(id) && live[id].spec_is_due(now) {
            lemma_next_run_is_later(live[id].definition.schedule, now);
        }
    }
    assert(due_ids(next, now) =~= Set::<u128>::empty());
}

} // verus!
