//! What the hub sends with a job.
pub mod job;
