//! A local backup agent: destinations, archive jobs, and the scheduler that
//! triggers them on cron cadences.

pub mod archive;
pub mod destinations;
pub mod job;
pub mod schema;
pub mod scheduler;
pub mod config;
