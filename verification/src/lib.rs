//! A cron-like job manager for single-user machines: the scheduling rules, the run history,
//! the logging and installation plans, with their contracts.

pub mod time;
pub mod config;
pub mod history;
pub mod daemon;
pub mod job;
pub mod doctor;
pub mod install;
