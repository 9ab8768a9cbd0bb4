//! The shapes shared by configuration objects and jobs.

use std::collections::HashMap;
use vstd::prelude::*;
use crate::archive::ArchiveJobSpec;

verus! {

/// The version header of a configuration document.
#[derive(Debug)]
pub struct ObjectVersion {
    pub api_version: String,
    pub kind: String,
}

/// Descriptive metadata of a configuration object.
#[derive(Debug)]
pub struct ObjectMetadata {
    pub name: String,
    pub labels: HashMap<String, String>,
    pub annotations: HashMap<String, String>,
}

/// A failed job run, carrying the job variant's own error.
#[derive(Debug)]
pub struct JobRunError<E> {
    pub error: E,
}

/// The variants of job; one field per variant carries its parameters.
#[derive(Debug, Clone)]
pub enum JobType {
    ArchiveJob(ArchiveJobSpec),
}

/// A specification for a backup job.
#[derive(Debug, Clone)]
pub struct JobSpec {
    /// The programmatic name of the job.
    pub name: String,
    /// The programmatic name of the destination to send the backup to.
    pub destination: String,
    /// The work to do.
    pub job_spec: JobType,
    /// The cron-syntax schedule to run the job on.
    pub schedule: String,
}

impl JobSpec {
    /// A copy equal to `self`.
    pub fn duplicate(&self) -> (r: JobSpec)
        ensures
            r == *self,
    {
        let job_spec = match &self.job_spec {
            JobType::ArchiveJob(a) => JobType::ArchiveJob(a.duplicate()),
        };
        JobSpec {
            name: self.name.clone(),
            destination: self.destination.clone(),
            job_spec,
            schedule: self.schedule.clone(),
        }
    }
}

} // verus!
