//! The scheduler: the live schedule in memory and every decision on it.
//!
//! The scheduler never touches storage and never runs a handler. The host
//! does both: it performs the storage call or starts the handler, and tells
//! the scheduler how storage answered. Each method here is one decision, from
//! the state and what happened to the next state and what to do.
//!
//! * At startup the host fetches all stored definitions and hands the answer
//!   to [`Scheduler::load_from_store`].
//! * To add a job it calls [`Scheduler::add_job`], stores the definition it
//!   gets, and hands the answer of storage to [`Scheduler::finish_add`].
//! * To remove a job it deletes the job from storage and hands the answer to
//!   [`Scheduler::remove_job`].
//! * In its loop it waits for cancellation or for the pause of
//!   [`CHECK_INTERVAL_SECONDS`] to pass, calls [`Scheduler::run`] with what
//!   happened, starts a task for each fired job with the handler that
//!   [`Scheduler::execute_job`] names, and deletes each retired job from
//!   storage.
//!
//! The host guards the scheduler with one lock; handlers run outside of it.

pub mod laws;
pub mod model;
mod sweep;

use vstd::prelude::*;
use std::collections::HashMap;
use vstd::std_specs::iter::IteratorSpec;
use crate::job::{fresh_id, is_random_id, JobDefinition, ScheduledJob};
use crate::registry::JobRegistry;
use crate::schedule::Schedule;
use crate::scheduler::laws::lemma_tick_keeps_consistent;
use crate::scheduler::model::{
    added, after_load, consistent, due_ids, loaded, planned, removed, retiring_ids, skipped_ids,
    stepped, ticked,
};
use crate::scheduler::sweep::{
    after_visits, fired_among, lemma_all_visited, lemma_fired_among, lemma_retired_among,
    lemma_visit_one_more, retired_among,
};
use crate::time::{clock_micros, Instant};

verus! {

/// Seconds between two wake-ups of the dispatch loop.
pub const CHECK_INTERVAL_SECONDS: u64 = 60;

/// Why an operation of the scheduler did not succeed.
#[derive(Debug)]
pub enum SchedulerError {
    /// A job was to be added under a name that has no handler. Nothing was
    /// stored.
    UnknownJob { name: String },
    /// Storage failed; `detail` is what it reported.
    Persistence { detail: String },
    /// The job to remove was not in the live schedule: it had retired or was
    /// never scheduled. Storage was asked to delete it all the same.
    NotFound { id: u128 },
}

impl SchedulerError {
    /// The text of the error.
    pub open spec fn spec_message(&self) -> Seq<char> {
        match *self {
            SchedulerError::UnknownJob { name } => "Job '"@ + name@ + "' not found in registry"@,
            SchedulerError::Persistence { detail } => detail@,
            SchedulerError::NotFound { .. } => "Job not found in active schedule"@,
        }
    }

    /// The text of the error, for logs and replies.
    pub fn message(&self) -> (text: String)
        ensures
            text@ == self.spec_message(),
    {
        match self {
            SchedulerError::UnknownJob { name } => {
                let mut text = String::from_str("Job '");
                text.append(name.as_str());
                text.append("' not found in registry");
                text
            },
            SchedulerError::Persistence { detail } => detail.clone(),
            SchedulerError::NotFound { .. } => String::from_str("Job not found in active schedule"),
        }
    }
}

/// What one tick asks of the host.
#[derive(Debug)]
pub struct TickReport {
    /// The jobs that fired: the host starts the handler of each, without
    /// waiting for it to finish.
    pub fired: Vec<JobDefinition>,
    /// The jobs that retired: the host deletes each from storage.
    pub retired: Vec<u128>,
}

/// What wakes the dispatch loop.
#[derive(Debug)]
pub enum Signal {
    /// The host asked the loop to stop.
    Cancelled,
    /// The pause between two ticks is over.
    Wake,
}

/// What the dispatch loop does next.
#[derive(Debug)]
pub enum RunStep {
    /// Leave the loop. Handlers that are still running are not stopped.
    Stop,
    /// A tick was made: act on its report, pause, and come back.
    Dispatch(TickReport),
}

/// Owns the live schedule and the registry of handlers.
pub struct Scheduler<H> {
    registry: JobRegistry<H>,
    jobs: HashMap<u128, ScheduledJob>,
}

impl<H> Scheduler<H> {
    /// The live schedule: the jobs that will fire again, by id.
    pub closed spec fn schedule(&self) -> Map<u128, ScheduledJob> {
        self.jobs@
    }

    /// The handlers that jobs can be added for, by name.
    pub closed spec fn handlers(&self) -> Map<Seq<char>, H> {
        self.registry@
    }

    /// Whether the registry inside the scheduler holds its own invariant.
    pub closed spec fn registry_wf(&self) -> bool {
        self.registry.wf()
    }

    /// The invariant of the scheduler: its registry is well formed and its
    /// live schedule is consistent. [`Scheduler::new`] establishes it and
    /// every method keeps it.
    pub open spec fn wf(&self) -> bool {
        &&& self.registry_wf()
        &&& consistent(self.schedule())
    }

    /// A scheduler with an empty live schedule.
    pub fn new(registry: JobRegistry<H>) -> (scheduler: Self)
        requires
            registry.wf(),
        ensures
            scheduler.wf(),
            scheduler.schedule() == Map::<u128, ScheduledJob>::empty(),
            scheduler.handlers() == registry@,
    {
        Scheduler { registry, jobs: HashMap::new() }
    }

    /// The registry that the scheduler was made with.
    pub fn registry(&self) -> (registry: &JobRegistry<H>)
        requires
            self.wf(),
        ensures
            registry.wf(),
            registry@ == self.handlers(),
    {
        &self.registry
    }

    /// The number of jobs in the live schedule.
    pub fn len(&self) -> (count: usize)
        requires
            self.wf(),
        ensures
            count == self.schedule().len(),
    {
        broadcast use vstd::std_specs::hash::group_hash_axioms;

        self.jobs.len()
    }

    /// The entry of job `id` in the live schedule, if it has one.
    pub fn job(&self, id: u128) -> (entry: Option<&ScheduledJob>)
        requires
            self.wf(),
        ensures
            match entry {
                Some(job) => self.schedule().contains_key(id) && *job == self.schedule()[id],
                None => !self.schedule().contains_key(id),
            },
    {
        broadcast use vstd::std_specs::hash::group_hash_axioms;

        self.jobs.get(&id)
    }

    /// The handler to run for a job that fired, or `None` where the name of
    /// the job is not registered; the host then skips the run.
    pub fn execute_job(&self, job: &JobDefinition) -> (handler: Option<&H>)
        requires
            self.wf(),
        ensures
            match handler {
                Some(h) => self.handlers().contains_key(job.name@) && *h
                    == self.handlers()[job.name@],
                None => !self.handlers().contains_key(job.name@),
            },
    {
        self.registry.get(job.name.as_str())
    }

    /// First step of adding a job, with the id and the time given.
    ///
    /// A name without a handler is refused, and nothing is to be stored.
    /// Otherwise the result is the definition that the host must store; once
    /// storage has answered, [`Scheduler::finish_add`] completes the addition.
    pub fn add_job_with(
        &self,
        name: String,
        schedule: Schedule,
        args: &serde_json::Value,
        id: u128,
        now: Instant,
    ) -> (outcome: Result<JobDefinition, SchedulerError>)
        requires
            self.wf(),
        ensures
            outcome == planned(
                self.handlers().contains_key(name@),
                name,
                schedule,
                *args,
                id,
                now,
            ),
    {
        if !self.registry.contains(name.as_str()) {
            return Err(SchedulerError::UnknownJob { name });
        }
        Ok(JobDefinition { id, name, schedule, created_at: now, args: args.clone() })
    }

    /// First step of adding a job: draws a fresh id, stamps the current time
    /// and proceeds as [`Scheduler::add_job_with`].
    pub fn add_job(&self, name: String, schedule: Schedule, args: &serde_json::Value) -> (outcome:
        Result<JobDefinition, SchedulerError>)
        requires
            self.wf(),
        ensures
            exists|id: u128, now: Instant|
                is_random_id(id) && outcome == #[trigger] planned(
                    self.handlers().contains_key(name@),
                    name,
                    schedule,
                    *args,
                    id,
                    now,
                ),
    {
        let id: u128 = fresh_id();
        let now = Instant::from_micros(clock_micros());
        self.add_job_with(name, schedule, args, id, now)
    }

    /// Second step of adding a job: `stored` is the answer of storage to the
    /// insertion of `definition`.
    ///
    /// If storage failed, the error is passed on and the live schedule stays
    /// as it was. If it succeeded, the job enters the live schedule, provided
    /// its schedule fires after the instant of its creation; a job that will
    /// never fire is stored but not scheduled.
    pub fn finish_add(&mut self, definition: JobDefinition, stored: Result<(), String>) -> (outcome:
        Result<JobDefinition, SchedulerError>)
        requires
            old(self).wf(),
        ensures
            final(self).wf(),
            final(self).handlers() == old(self).handlers(),
            added(old(self).schedule(), definition, stored, final(self).schedule(), outcome),
    {
        broadcast use vstd::std_specs::hash::group_hash_axioms;

        match stored {
            Err(detail) => Err(SchedulerError::Persistence { detail }),
            Ok(_) => {
                match definition.schedule.next_run(definition.created_at) {
                    Some(next_run) => {
                        self.jobs.insert(
                            definition.id,
                            ScheduledJob {
                                definition: definition.clone(),
                                last_run: None,
                                next_run,
                            },
                        );
                    },
                    None => {},
                }
                Ok(definition)
            },
        }
    }

    /// Removes a job: `deleted` is the answer of storage to the deletion of
    /// `id`, which the host asks for first.
    ///
    /// If storage failed, the error is passed on and the live schedule stays
    /// as it was. If it succeeded, the job leaves the live schedule; where it
    /// was not there, the result says so.
    pub fn remove_job(&mut self, id: u128, deleted: Result<(), String>) -> (outcome: Result<
        (),
        SchedulerError,
    >)
        requires
            old(self).wf(),
        ensures
            final(self).wf(),
            final(self).handlers() == old(self).handlers(),
            removed(old(self).schedule(), id, deleted, final(self).schedule(), outcome),
    {
        broadcast use vstd::std_specs::hash::group_hash_axioms;

        match deleted {
            Err(detail) => Err(SchedulerError::Persistence { detail }),
            Ok(_) => {
                match self.jobs.remove(&id) {
                    Some(_) => Ok(()),
                    None => Err(SchedulerError::NotFound { id }),
                }
            },
        }
    }

    /// The ids of the jobs in the live schedule, each once, in no particular
    /// order.
    pub fn ids(&self) -> (ids: Vec<u128>)
        ensures
            ids@.no_duplicates(),
            ids@.to_set() == self.schedule().dom(),
    {
        broadcast use vstd::std_specs::hash::group_hash_axioms;

        let mut ids: Vec<u128> = Vec::new();
        let ghost all: Seq<u128> = self.jobs.keys().remaining().unref();
        for id in it: self.jobs.keys()
            invariant
                it.seq().unref() == all,
                all.to_set() == self.jobs@.dom(),
                all.no_duplicates(),
                it.index() <= all.len(),
                ids@ == all.take(it.index() as int),
        {
            ids.push(*id);
        }
        assert(all.take(all.len() as int) =~= all);
        ids
    }

    /// One tick of the dispatch loop at `now`.
    ///
    /// Every job whose next run is not after `now` fires exactly once. Each
    /// of them is then rescheduled from `now`, or retires where its schedule
    /// is spent. Jobs that are not due are left alone. The report lists the
    /// fired jobs and the retired ids, in no particular order.
    pub fn tick(&mut self, now: Instant) -> (report: TickReport)
        requires
            old(self).wf(),
        ensures
            final(self).wf(),
            final(self).handlers() == old(self).handlers(),
            ticked(old(self).schedule(), now, final(self).schedule(), report),
    {
        broadcast use vstd::std_specs::hash::group_hash_axioms;

        let ghost before = self.jobs@;
        let ids = self.ids();
        let mut fired: Vec<JobDefinition> = Vec::new();
        let mut retired: Vec<u128> = Vec::new();
        let mut i: usize = 0;
        while i < ids.len()
            invariant
                i <= ids@.len(),
                ids@.no_duplicates(),
                ids@.to_set() == before.dom(),
                self.registry == old(self).registry,
                self.jobs@ == after_visits(before, ids@.take(i as int).to_set(), now),
                fired@ == fired_among(before, ids@.take(i as int), now),
                retired@ == retired_among(before, ids@.take(i as int), now),
            decreases ids@.len() - i,
        {
            let id: u128 = ids[i];
            proof {
                let visited = ids@.take(i as int);
                assert(ids@.to_set().contains(ids@[i as int]));
                assert(!visited.contains(id)) by {
                    if visited.contains(id) {
                        let k = choose|k: int| 0 <= k < visited.len() && visited[k] == id;
                        assert(ids@[k] == ids@[i as int]);
                    }
                }
                lemma_visit_one_more(before, visited.to_set(), id, now);
                assert(ids@.take(i + 1).drop_last() =~= visited);
                assert(ids@.take(i + 1) =~= visited.push(id));
                visited.lemma_push_to_set_commute(id);
            }
            let due: bool = match self.jobs.get(&id) {
                Some(job) => job.is_due(now),
                None => false,
            };
            if due {
                match self.jobs.remove(&id) {
                    Some(job) => {
                        fired.push(job.definition.clone());
                        match job.definition.schedule.next_run(now) {
                            Some(next_run) => {
                                self.jobs.insert(
                                    id,
                                    ScheduledJob {
                                        definition: job.definition,
                                        last_run: Some(now),
                                        next_run,
                                    },
                                );
                            },
                            None => {
                                retired.push(id);
                            },
                        }
                    },
                    None => {},
                }
            }
            assert(self.jobs@ =~= after_visits(before, ids@.take(i + 1).to_set(), now));
            i = i + 1;
        }
        proof {
            assert(ids@.take(ids@.len() as int) =~= ids@);
            lemma_all_visited(before, now);
            lemma_tick_keeps_consistent(before, now);
            lemma_fired_among(before, ids@, now);
            lemma_retired_among(before, ids@, now);
            assert(due_ids(before, now).intersect(before.dom()) =~= due_ids(before, now));
            assert(retiring_ids(before, now).intersect(before.dom()) =~= retiring_ids(
                before,
                now,
            ));
        }
        TickReport { fired, retired }
    }

    /// One step of the dispatch loop.
    ///
    /// On cancellation the loop ends and nothing changes. On a wake-up the
    /// clock is read and a tick is made at that instant.
    pub fn run(&mut self, signal: Signal) -> (step: RunStep)
        requires
            old(self).wf(),
        ensures
            final(self).wf(),
            final(self).handlers() == old(self).handlers(),
            stepped(old(self).schedule(), signal, final(self).schedule(), step),
    {
        match signal {
            Signal::Cancelled => {
                let step = RunStep::Stop;
                assert(stepped(old(self).schedule(), signal, self.schedule(), step));
                step
            },
            Signal::Wake => {
                let now = Instant::from_micros(clock_micros());
                let report = self.tick(now);
                let step = RunStep::Dispatch(report);
                assert(ticked(old(self).schedule(), now, self.schedule(), step->Dispatch_0));
                assert(stepped(old(self).schedule(), signal, self.schedule(), step));
                step
            },
        }
    }

    /// Fills the live schedule from what storage holds, as of `now`.
    ///
    /// `fetched` is the answer of storage to the request for all definitions.
    /// Each definition whose schedule fires after `now` enters the live
    /// schedule as never run. The others are skipped: they stay in storage,
    /// and their ids are returned. If storage failed, nothing is loaded and
    /// the error is returned, so that the host can go on with the schedule as
    /// it is.
    pub fn load_from_store_at(
        &mut self,
        fetched: Result<Vec<JobDefinition>, String>,
        now: Instant,
    ) -> (outcome: Result<Vec<u128>, SchedulerError>)
        requires
            old(self).wf(),
        ensures
            final(self).wf(),
            final(self).handlers() == old(self).handlers(),
            loaded(old(self).schedule(), fetched, now, final(self).schedule(), outcome),
    {
        broadcast use vstd::std_specs::hash::group_hash_axioms;

        match fetched {
            Err(detail) => Err(SchedulerError::Persistence { detail }),
            Ok(definitions) => {
                let ghost before = self.jobs@;
                let ghost all = definitions@;
                let mut skipped: Vec<u128> = Vec::new();
                for definition in it: definitions
                    invariant
                        it.seq() == all,
                        self.registry == old(self).registry,
                        consistent(self.jobs@),
                        self.jobs@ == after_load(before, all.take(it.index()), now),
                        skipped@ == skipped_ids(all.take(it.index()), now),
                {
                    proof {
                        let step = it.index();
                        assert(all.take(step + 1).drop_last() =~= all.take(step));
                        assert(all.take(step + 1).last() == definition);
                    }
                    match definition.schedule.next_run(now) {
                        Some(next_run) => {
                            self.jobs.insert(
                                definition.id,
                                ScheduledJob { definition, last_run: None, next_run },
                            );
                        },
                        None => {
                            skipped.push(definition.id);
                        },
                    }
                }
                assert(all.take(all.len() as int) =~= all);
                Ok(skipped)
            },
        }
    }

    /// Fills the live schedule from what storage holds, as of the current
    /// time: reads the clock and proceeds as
    /// [`Scheduler::load_from_store_at`].
    pub fn load_from_store(&mut self, fetched: Result<Vec<JobDefinition>, String>) -> (outcome:
        Result<Vec<u128>, SchedulerError>)
        requires
            old(self).wf(),
        ensures
            final(self).wf(),
            final(self).handlers() == old(self).handlers(),
            exists|now: Instant| #[trigger]
                loaded(old(self).schedule(), fetched, now, final(self).schedule(), outcome),
    {
        let now = Instant::from_micros(clock_micros());
        let outcome = self.load_from_store_at(fetched, now);
        assert(loaded(old(self).schedule(), fetched, now, self.schedule(), outcome));
        outcome
    }
}

} // verus!
