//! The configuration document and the agent built from it at startup.

use vstd::prelude::*;
use crate::archive::ArchiveJob;
use crate::destinations::{last_named, DestinationMap, DestinationSpec};
use crate::schema::{JobSpec, ObjectVersion};
use crate::scheduler::{schedule_accepted, ScheduledJob, Scheduler};

verus! {

/// The destinations and jobs of a configuration.
#[derive(Debug)]
pub struct BacletConfigSpec {
    pub destinations: Vec<DestinationSpec>,
    pub jobs: Vec<JobSpec>,
}

/// A configuration document.
#[derive(Debug)]
pub struct BacletConfig {
    pub version: ObjectVersion,
    pub spec: BacletConfigSpec,
}

/// Why no agent can be built from a configuration.
#[derive(Debug)]
pub enum AgentInitError {
    /// The job at this position has a schedule that the scheduler does not
    /// take: one that the cron parser refuses, or one that is not supported
    /// (see `supported_expression`: in field form, more than six words, two
    /// fields run together, or a zero step).
    InvalidSchedule(usize),
}

/// The running state of the agent: one executable job per configured job,
/// each bound to every configured destination, and the cadence of each at
/// the same position in the scheduler.
pub struct Agent {
    pub jobs: Vec<ArchiveJob>,
    pub scheduler: Scheduler,
}

/// Whether `i` is the position of the first job whose schedule is not taken.
pub open spec fn first_invalid(jobs: Seq<JobSpec>, i: int) -> bool {
    0 <= i < jobs.len() && !schedule_accepted(jobs[i].schedule@) && forall|k: int|
        0 <= k < i ==> schedule_accepted(#[trigger] jobs[k].schedule@)
}

impl Agent {
    /// Builds the agent. Every schedule must parse: the first one that does
    /// not is reported, and nothing is scheduled.
    pub fn from_config(config: &BacletConfig) -> (r: Result<Agent, AgentInitError>)
        ensures
            match r {
                Ok(agent) => {
                    &&& forall|k: int|
                        0 <= k < config.spec.jobs@.len() ==> schedule_accepted(
                            #[trigger] config.spec.jobs@[k].schedule@,
                        )
                    &&& agent.scheduler.wf()
                    &&& agent.jobs@.len() == config.spec.jobs@.len()
                    &&& agent.scheduler.jobs@.len() == config.spec.jobs@.len()
                    &&& forall|k: int|
                        0 <= k < agent.jobs@.len() ==> (#[trigger] agent.jobs@[k]).spec
                            == config.spec.jobs@[k]
                    &&& forall|k: int, n: Seq<char>|
                        0 <= k < agent.jobs@.len() ==> #[trigger] agent.jobs@[k].dests.lookup(n)
                            == last_named(config.spec.destinations@, n)
                    &&& forall|k: int|
                        0 <= k < agent.scheduler.jobs@.len() ==> #[trigger] agent.scheduler.jobs@[k]
                            == (ScheduledJob { schedule: config.spec.jobs@[k].schedule, last_tick: None })
                },
                Err(AgentInitError::InvalidSchedule(position)) => first_invalid(
                    config.spec.jobs@,
                    position as int,
                ),
            },
    {
        let dests = DestinationMap::from_specs(&config.spec.destinations);
        let mut jobs: Vec<ArchiveJob> = Vec::new();
        let mut scheduler = Scheduler::new();
        let specs = &config.spec.jobs;
        let mut i: usize = 0;
        while i < specs.len()
            invariant
                specs@ == config.spec.jobs@,
                i <= specs@.len(),
                jobs@.len() == i,
                scheduler.jobs@.len() == i,
                scheduler.wf(),
                forall|k: int| 0 <= k < i ==> schedule_accepted(#[trigger] specs@[k].schedule@),
                forall|k: int| 0 <= k < i ==> (#[trigger] jobs@[k]).spec == specs@[k],
                forall|n: Seq<char>| #[trigger] dests.lookup(n) == last_named(config.spec.destinations@, n),
                forall|k: int, n: Seq<char>|
                    0 <= k < i ==> #[trigger] jobs@[k].dests.lookup(n) == last_named(
                        config.spec.destinations@,
                        n,
                    ),
                forall|k: int|
                    0 <= k < i ==> #[trigger] scheduler.jobs@[k] == (ScheduledJob {
                        schedule: specs@[k].schedule,
                        last_tick: None,
                    }),
            decreases specs@.len() - i,
        {
            let spec = specs[i].duplicate();
            let schedule = spec.schedule.clone();
            match scheduler.add(schedule) {
                Ok(_) => {},
                Err(_) => {
                    return Err(AgentInitError::InvalidSchedule(i));
                },
            }
            let job = ArchiveJob::init(spec, dests.duplicate());
            jobs.push(job);
            i = i + 1;
        }
        Ok(Agent { jobs, scheduler })
    }
}

} // verus!
