//! Orchestration of multi-step content downloads: a catalog of bundles, the job that fetches
//! one of them step by step, its bounded output log, and the supervisor that lets one job
//! run at a time while the foreground polls and cancels.

pub mod status;
pub mod text;
pub mod job;
pub mod log;
pub mod output;
pub mod sequencer;
pub mod supervisor;
pub mod catalog;
pub mod resources;
