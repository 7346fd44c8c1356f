//! What a job is: its durable definition and its entry in the live schedule.

use vstd::prelude::*;
use crate::schedule::Schedule;
use crate::time::Instant;

verus! {

/// `serde_json::Value`, the argument payload of a job. The scheduler never
/// looks inside it: it stores the payload and hands it to the handler.
#[verifier::external_type_specification]
#[verifier::external_body]
pub struct ExPayload(serde_json::Value);

/// Trusted: `serde_json::Value` derives `Clone`, so a clone is the same JSON
/// tree as the value it was made from.
pub assume_specification[ <serde_json::Value as Clone>::clone ](
    value: &serde_json::Value,
) -> (copy: serde_json::Value)
    ensures
        copy == *value,
;

/// What every freshly drawn id has in common: the version field (bits 76 to
/// 79) holds 4 and the variant field (bits 62 and 63) holds binary 10. The
/// other 122 bits are random.
pub open spec fn is_random_id(id: u128) -> bool {
    (id & 0xF000_C000_0000_0000_0000u128) == 0x4000_8000_0000_0000_0000u128
}

/// Draws a new job id.
///
/// Trusted. The body calls `uuid::Uuid::new_v4` and reads the result with
/// `Uuid::as_u128`. The id is random, so two calls may differ; the contract
/// states only the version and variant bits that `new_v4` sets in every id.
#[verifier::external_body]
pub(crate) fn fresh_id() -> (id: u128)
    ensures
        is_random_id(id),
{
    uuid::Uuid::new_v4().as_u128()
}

/// The durable record of a scheduled job. It never changes once created:
/// to reschedule a job, remove it and add a new one.
#[derive(Debug)]
pub struct JobDefinition {
    /// Identifies this definition; drawn at random when the job is added.
    pub id: u128,
    /// The registry name of the handler to run.
    pub name: String,
    /// When to run it.
    pub schedule: Schedule,
    /// When the definition was created.
    pub created_at: Instant,
    /// Passed to the handler as it is.
    pub args: serde_json::Value,
}

impl Clone for JobDefinition {
    fn clone(&self) -> (copy: Self)
        ensures
            copy == *self,
    {
        JobDefinition {
            id: self.id,
            name: self.name.clone(),
            schedule: self.schedule.clone(),
            created_at: self.created_at,
            args: self.args.clone(),
        }
    }
}

/// A job in the live schedule: its definition and its run times.
#[derive(Debug)]
pub struct ScheduledJob {
    pub definition: JobDefinition,
    /// When the job last fired, if it ever did.
    pub last_run: Option<Instant>,
    /// When the job fires next.
    pub next_run: Instant,
}

impl ScheduledJob {
    /// Whether the job is to fire at `now`: its next run is not in the future.
    pub open spec fn spec_is_due(&self, now: Instant) -> bool {
        self.next_run@ <= now@
    }

    /// Whether the job is to fire at `now`.
    #[verifier::when_used_as_spec(spec_is_due)]
    pub fn is_due(&self, now: Instant) -> (due: bool)
        ensures
            due == self.spec_is_due(now),
    {
        self.next_run.micros <= now.micros
    }
}

} // verus!
