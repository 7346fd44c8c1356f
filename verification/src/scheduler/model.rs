//! The scheduler as mathematics: the live schedule is a map from job ids to
//! entries, and every operation is a function on such maps. The contracts of
//! [`Scheduler`](crate::scheduler::Scheduler) are stated with these functions.

use vstd::prelude::*;
use crate::job::{JobDefinition, ScheduledJob};
use crate::schedule::Schedule;
use crate::scheduler::{RunStep, SchedulerError, Signal, TickReport};
use crate::time::Instant;

verus! {

/// What makes an entry of the live schedule sound: its next run is what its
/// schedule names, asked with the instant of its last run or, where it never
/// ran, with the instant at which it was enrolled.
pub open spec fn on_schedule(job: ScheduledJob) -> bool {
    match job.last_run {
        Some(last) => job.definition.schedule.spec_next_run(last) == Some(job.next_run),
        None => exists|basis: Instant| #[trigger]
            job.definition.schedule.spec_next_run(basis) == Some(job.next_run),
    }
}

/// What makes a live schedule sound: it is finite, every entry is filed under
/// the id of its definition, and every entry is on schedule.
pub open spec fn consistent(live: Map<u128, ScheduledJob>) -> bool {
    &&& live.dom().finite()
    &&& forall|id: u128| #[trigger]
        live.contains_key(id) ==> live[id].definition.id == id && on_schedule(live[id])
}

/// The ids of a list of definitions, in the order of the list.
pub open spec fn ids_of(definitions: Seq<JobDefinition>) -> Seq<u128> {
    definitions.map_values(|definition: JobDefinition| definition.id)
}

/// The live schedule with one more definition, enrolled as of `now`: the
/// definition gets an entry if its schedule fires after `now`, and is left
/// out otherwise.
pub open spec fn enrolled(
    live: Map<u128, ScheduledJob>,
    definition: JobDefinition,
    now: Instant,
) -> Map<u128, ScheduledJob> {
    match definition.schedule.spec_next_run(now) {
        Some(next_run) => live.insert(
            definition.id,
            ScheduledJob { definition, last_run: None, next_run },
        ),
        None => live,
    }
}

/// The outcome of the first step of adding a job. A job whose name has a
/// handler gets its definition, made of what was given; the host stores it.
/// A job whose name has none is refused, and there is nothing to store.
pub open spec fn planned(
    registered: bool,
    name: String,
    schedule: Schedule,
    args: serde_json::Value,
    id: u128,
    now: Instant,
) -> Result<JobDefinition, SchedulerError> {
    if registered {
        Ok(JobDefinition { id, name, schedule, created_at: now, args })
    } else {
        Err(SchedulerError::UnknownJob { name })
    }
}

/// How the second step of adding a job relates the live schedule before and
/// after it to the answer of storage and to the outcome.
///
/// Where storage failed, the schedule stays as it was and the error is passed
/// on. Where it succeeded, the definition is enrolled as of its creation and
/// handed back.
pub open spec fn added(
    before: Map<u128, ScheduledJob>,
    definition: JobDefinition,
    stored: Result<(), String>,
    after: Map<u128, ScheduledJob>,
    outcome: Result<JobDefinition, SchedulerError>,
) -> bool {
    match stored {
        Ok(_) => {
            &&& after == enrolled(before, definition, definition.created_at)
            &&& outcome == Ok::<JobDefinition, SchedulerError>(definition)
        },
        Err(detail) => {
            &&& after == before
            &&& outcome == Err::<JobDefinition, SchedulerError>(
                SchedulerError::Persistence { detail },
            )
        },
    }
}

/// How a removal relates the live schedule before and after it to the answer
/// of storage and to the outcome.
///
/// Where storage failed, the schedule stays as it was and the error is passed
/// on. Where it succeeded, the job leaves the schedule; the outcome is
/// success if the job was there, and names the missing id if it was not.
pub open spec fn removed(
    before: Map<u128, ScheduledJob>,
    id: u128,
    deleted: Result<(), String>,
    after: Map<u128, ScheduledJob>,
    outcome: Result<(), SchedulerError>,
) -> bool {
    match deleted {
        Ok(_) => {
            &&& after == before.remove(id)
            &&& outcome == if before.contains_key(id) {
                Ok::<(), SchedulerError>(())
            } else {
                Err::<(), SchedulerError>(SchedulerError::NotFound { id })
            }
        },
        Err(detail) => {
            &&& after == before
            &&& outcome == Err::<(), SchedulerError>(SchedulerError::Persistence { detail })
        },
    }
}

/// The live schedule after the definitions of a list were enrolled as of
/// `now`, one after the other. Where two definitions share an id, the later
/// one stays.
pub open spec fn after_load(
    live: Map<u128, ScheduledJob>,
    definitions: Seq<JobDefinition>,
    now: Instant,
) -> Map<u128, ScheduledJob>
    decreases definitions.len(),
{
    if definitions.len() == 0 {
        live
    } else {
        enrolled(after_load(live, definitions.drop_last(), now), definitions.last(), now)
    }
}

/// The ids of the definitions of a list whose schedule will not fire after
/// `now`, in the order of the list.
pub open spec fn skipped_ids(definitions: Seq<JobDefinition>, now: Instant) -> Seq<u128>
    decreases definitions.len(),
{
    if definitions.len() == 0 {
        Seq::empty()
    } else if definitions.last().schedule.spec_next_run(now) is None {
        skipped_ids(definitions.drop_last(), now).push(definitions.last().id)
    } else {
        skipped_ids(definitions.drop_last(), now)
    }
}

/// How a load at `now` relates the live schedule before and after it to what
/// storage handed over and to the outcome.
///
/// Where storage failed, nothing is loaded and the error is passed on. Where
/// it delivered, every definition that will fire after `now` is enrolled, and
/// the outcome lists the ids of the others.
pub open spec fn loaded(
    before: Map<u128, ScheduledJob>,
    fetched: Result<Vec<JobDefinition>, String>,
    now: Instant,
    after: Map<u128, ScheduledJob>,
    outcome: Result<Vec<u128>, SchedulerError>,
) -> bool {
    match fetched {
        Ok(definitions) => {
            &&& after == after_load(before, definitions@, now)
            &&& outcome matches Ok(skipped)
            &&& skipped@ == skipped_ids(definitions@, now)
        },
        Err(detail) => {
            &&& after == before
            &&& outcome == Err::<Vec<u128>, SchedulerError>(SchedulerError::Persistence { detail })
        },
    }
}

/// What becomes of one entry in a tick at `now`. An entry that is not due
/// stays as it is. A due entry fires: it is rescheduled from `now`, with
/// `now` as its last run, or retires (`None`) where its schedule is spent.
pub open spec fn entry_after_tick(job: ScheduledJob, now: Instant) -> Option<ScheduledJob> {
    if job.spec_is_due(now) {
        match job.definition.schedule.spec_next_run(now) {
            Some(next_run) => Some(
                ScheduledJob { definition: job.definition, last_run: Some(now), next_run },
            ),
            None => None,
        }
    } else {
        Some(job)
    }
}

/// The live schedule after a tick at `now`: every entry as
/// [`entry_after_tick`] leaves it, without those that retire.
pub open spec fn after_tick(live: Map<u128, ScheduledJob>, now: Instant) -> Map<
    u128,
    ScheduledJob,
> {
    Map::new(
        |id: u128| live.contains_key(id) && entry_after_tick(live[id], now) is Some,
        |id: u128| entry_after_tick(live[id], now)->0,
    )
}

/// The ids of the jobs that fire in a tick at `now`.
pub open spec fn due_ids(live: Map<u128, ScheduledJob>, now: Instant) -> Set<u128> {
    Set::new(|id: u128| live.contains_key(id) && live[id].spec_is_due(now))
}

/// The ids of the jobs that fire in a tick at `now` for the last time.
pub open spec fn retiring_ids(live: Map<u128, ScheduledJob>, now: Instant) -> Set<u128> {
    Set::new(|id: u128| live.contains_key(id) && entry_after_tick(live[id], now) is None)
}

/// How a tick at `now` relates the live schedule before and after it to its
/// report.
///
/// The schedule changes as [`after_tick`] says. The report names every due
/// job exactly once, each with the definition it had in the schedule, and
/// every retiring id exactly once.
pub open spec fn ticked(
    before: Map<u128, ScheduledJob>,
    now: Instant,
    after: Map<u128, ScheduledJob>,
    report: TickReport,
) -> bool {
    &&& after == after_tick(before, now)
    &&& ids_of(report.fired@).no_duplicates()
    &&& ids_of(report.fired@).to_set() == due_ids(before, now)
    &&& forall|i: int|
        0 <= i < report.fired@.len() ==> (#[trigger] report.fired@[i])
            == before[report.fired@[i].id].definition
    &&& report.retired@.no_duplicates()
    &&& report.retired@.to_set() == retiring_ids(before, now)
}

/// How one step of the dispatch loop relates the live schedule before and
/// after it to the signal and to what the loop does next.
///
/// On cancellation the loop stops and the schedule stays as it was. On a
/// wake-up a tick is made at some instant, the one that the clock showed.
pub open spec fn stepped(
    before: Map<u128, ScheduledJob>,
    signal: Signal,
    after: Map<u128, ScheduledJob>,
    step: RunStep,
) -> bool {
    match signal {
        Signal::Cancelled => step is Stop && after == before,
        Signal::Wake => match step {
            RunStep::Dispatch(report) => exists|now: Instant| #[trigger]
                ticked(before, now, after, report),
            RunStep::Stop => false,
        },
    }
}

} // verus!
