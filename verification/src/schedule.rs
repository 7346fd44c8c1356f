//! When a job runs: once, at a fixed interval, or by a cron expression.

use vstd::prelude::*;
use std::str::FromStr;
use crate::time::{fits_i64, Instant, TimeDelta};

verus! {

/// Cron expressions name no year after 2100, so a query at or after this
/// instant (2101-01-01 00:00:00 UTC) has no answer.
pub const CRON_END_MICROS: i64 = 4_133_980_800_000_000;

/// The policy that decides when a job fires next.
#[derive(Debug)]
pub enum Schedule {
    /// Fires exactly once, at the given instant.
    Once(Instant),
    /// Fires again and again, each time the given span after the query.
    /// A span that is not positive never fires.
    Interval(TimeDelta),
    /// Fires at the instants that match a cron expression of seven fields
    /// (seconds first, year last and optional). A malformed expression never
    /// fires.
    Cron(String),
}

/// What the `cron` crate answers when it is asked for the first match of the
/// expression `expr` after the instant `after_micros`, both in UTC and in
/// microseconds since the epoch: an instant, or nothing where the expression
/// does not parse, the query lies outside the calendar of `chrono`, or no
/// match is left.
pub uninterp spec fn cron_next(expr: Seq<char>, after_micros: i64) -> Option<i64>;

/// Asks the `cron` crate for the next match of `expr` after an instant.
///
/// Trusted. The body parses the expression with `cron::Schedule::from_str`,
/// turns the query into a `chrono::DateTime<Utc>` with
/// `DateTime::from_timestamp_micros`, takes the first item of
/// `cron::Schedule::after` and reads it back with `DateTime::timestamp_micros`.
/// The contract only gives that answer its name: the same expression and the
/// same instant always yield the same result, since the computation reads
/// nothing but its arguments and works in UTC. Nothing is claimed about which
/// instant comes back.
///
/// The query must lie before 2101, which keeps the one-second step that the
/// crate adds to it inside the range of `chrono`.
#[verifier::external_body]
fn cron_upcoming(expr: &str, after_micros: i64) -> (hit: Option<i64>)
    requires
        after_micros < CRON_END_MICROS,
    ensures
        hit == cron_next(expr@, after_micros),
{
    let schedule = cron::Schedule::from_str(expr).ok()?;
    let start = chrono::DateTime::<chrono::Utc>::from_timestamp_micros(after_micros)?;
    let next = schedule.after(&start).next()?;
    Some(next.timestamp_micros())
}

/// What a cron answer is worth: the instant it names where that instant lies
/// strictly after the query, and nothing otherwise.
pub open spec fn later_hit(after: Instant, hit: Option<i64>) -> Option<Instant> {
    match hit {
        Some(micros) => if micros > after.micros {
            Some(Instant { micros })
        } else {
            None
        },
        None => None,
    }
}

/// Accepts the answer of a cron query only if it lies strictly after the
/// query, so that no schedule ever names an instant that is not in the future.
pub fn accept_cron_hit(after: Instant, hit: Option<i64>) -> (next: Option<Instant>)
    ensures
        next == later_hit(after, hit),
{
    match hit {
        Some(micros) => if micros > after.micros {
            Some(Instant { micros })
        } else {
            None
        },
        None => None,
    }
}

impl Schedule {
    /// The first instant strictly after `after` at which the schedule fires,
    /// or nothing where it will never fire again.
    ///
    /// * `Once(t)` fires at `t` if `t` is still ahead.
    /// * `Interval(d)` with a positive `d` fires at `after + d`, as long as
    ///   that instant can be represented.
    /// * `Cron(expr)` fires at the next match of the expression.
    pub open spec fn spec_next_run(&self, after: Instant) -> Option<Instant> {
        match *self {
            Schedule::Once(at) => if at@ > after@ {
                Some(at)
            } else {
                None
            },
            Schedule::Interval(every) => if every@ > 0 {
                after.plus(every)
            } else {
                None
            },
            Schedule::Cron(expr) => if after@ < CRON_END_MICROS {
                later_hit(after, cron_next(expr@, after.micros))
            } else {
                None
            },
        }
    }

    /// Computes the next fire time strictly after `after`.
    ///
    /// A cron expression is parsed anew on every call.
    #[verifier::when_used_as_spec(spec_next_run)]
    pub fn next_run(&self, after: Instant) -> (next: Option<Instant>)
        ensures
            next == self.spec_next_run(after),
            next matches Some(t) ==> t@ > after@,
    {
        match self {
            Schedule::Once(at) => if at.micros > after.micros {
                Some(*at)
            } else {
                None
            },
            Schedule::Interval(every) => if every.micros > 0 {
                after.checked_add(*every)
            } else {
                None
            },
            Schedule::Cron(expr) => if after.micros < CRON_END_MICROS {
                accept_cron_hit(after, cron_upcoming(expr.as_str(), after.micros))
            } else {
                None
            },
        }
    }
}

impl Clone for Schedule {
    fn clone(&self) -> (copy: Self)
        ensures
            copy == *self,
    {
        match self {
            Schedule::Once(at) => Schedule::Once(*at),
            Schedule::Interval(every) => Schedule::Interval(*every),
            Schedule::Cron(expr) => Schedule::Cron(expr.clone()),
        }
    }
}

/// The instant of the `n`-th run of a schedule that is followed from `start`:
/// each run is asked for with the instant of the run before it, and `start`
/// stands for run number zero. Nothing once the schedule is spent.
pub open spec fn nth_run(schedule: Schedule, start: Instant, n: nat) -> Option<Instant>
    decreases n,
{
    if n == 0 {
        Some(start)
    } else {
        match nth_run(schedule, start, (n - 1) as nat) {
            Some(previous) => schedule.spec_next_run(previous),
            None => None,
        }
    }
}

/// Whatever a schedule names as its next run lies strictly after the query.
pub proof fn lemma_next_run_is_later(schedule: Schedule, after: Instant)
    ensures
        schedule.spec_next_run(after) matches Some(next) ==> next@ > after@,
{
}

/// A one-shot schedule fires at its instant for every query before that
/// instant, and never for a query at or after it.
pub proof fn lemma_once_fires_until_passed(at: Instant, after: Instant)
    ensures
        after@ < at@ ==> Schedule::Once(at).spec_next_run(after) == Some(at),
        after@ >= at@ ==> Schedule::Once(at).spec_next_run(after) is None,
{
}

/// A cron schedule fires at the instant that the `cron` crate answers, for
/// every query before 2101 that the answer lies strictly after.
pub proof fn lemma_cron_fires_at_the_answer(expr: String, after: Instant, answer: i64)
    ensures
        after@ < CRON_END_MICROS && answer > after@ && cron_next(expr@, after.micros) == Some(
            answer,
        ) ==> Schedule::Cron(expr).spec_next_run(after) == Some(Instant::at(answer)),
{
}

/// A cron schedule never fires where the `cron` crate has no answer, as it
/// has none for an expression that does not parse.
pub proof fn lemma_cron_without_answer_never_fires(expr: String, after: Instant)
    ensures
        cron_next(expr@, after.micros) is None ==> Schedule::Cron(expr).spec_next_run(after)
            is None,
{
}

/// An interval schedule with a positive span fires one span after the query,
/// whenever that instant can be represented.
pub proof fn lemma_interval_adds_span(every: TimeDelta, after: Instant)
    requires
        every@ > 0,
        fits_i64(after@ + every@),
    ensures
        Schedule::Interval(every).spec_next_run(after) matches Some(next) && next@ == after@
            + every@,
{
}

/// Following a schedule run after run yields strictly increasing instants:
/// of two runs that both exist, the later one in the count is the later one
/// in time.
pub proof fn lemma_runs_increase(schedule: Schedule, start: Instant, earlier: nat, later: nat)
    requires
        earlier < later,
        nth_run(schedule, start, later) is Some,
    ensures
        nth_run(schedule, start, earlier) is Some,
        nth_run(schedule, start, earlier)->0@ < nth_run(schedule, start, later)->0@,
    decreases later,
{
    let previous = nth_run(schedule, start, (later - 1) as nat);
    assert(previous is Some);
    lemma_next_run_is_later(schedule, previous->0);
    if earlier < later - 1 {
        lemma_runs_increase(schedule, start, earlier, (later - 1) as nat);
    }
}

/// The `n`-th run of an interval schedule with a positive span lies `n` spans
/// after the start, whenever that instant can be represented.
pub proof fn lemma_interval_nth_run(every: TimeDelta, start: Instant, n: nat)
    requires
        every@ > 0,
        fits_i64(start@ + n * every@),
    ensures
        nth_run(Schedule::Interval(every), start, n) matches Some(run) && run@ == start@ + n
            * every@,
    decreases n,
{
    if n > 0 {
        assert((n - 1) * every@ == n * every@ - every@) by (nonlinear_arith);
        assert(0 <= (n - 1) * every@) by (nonlinear_arith)
            requires
                n >= 1,
                every@ > 0,
        ;
        lemma_interval_nth_run(every, start, (n - 1) as nat);
    } else {
        assert(0 * every@ == 0);
    }
}

} // verus!
