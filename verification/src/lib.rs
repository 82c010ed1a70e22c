//! Dotfile synchronisation engine.
//!
//! The engine keeps the files that a profile tracks consistent between their
//! canonical sources and the home directory, and mirrors them to a remote
//! repository.  Here it is a library of decisions over plain values: which
//! profile is in use, whether a source is eligible, what a deployment would
//! change, by which file operations a file is deployed, by which steps the
//! mirror is made, and in which order a pass does all this.  Reading the
//! host, touching the disk and talking to the remote are left to the caller.
//!
//! - `config`: profiles, remote settings, detection rules
//! - `detect`: the profile that the host's signals select
//! - `filter`: eligibility under ignore patterns
//! - `diff`: the advisory diff report
//! - `plan`: backup and deployment of one tracked file
//! - `mirror`: the steps of the remote mirror
//! - `pass`: the order of a sync pass
//! - `trigger`: the watch and the schedule
//! - `dotty`: the engine with its commands
//! - `memfs`, `dryrun`, `laws`: a file tree in memory, the deploy stage on
//!   it, and what holds of that stage
//! - `paths`, `assoc`, `error`: path arithmetic, association lists, errors

pub mod assoc;
pub mod config;
pub mod detect;
pub mod diff;
pub mod dotty;
pub mod dryrun;
pub mod error;
pub mod filter;
pub mod laws;
pub mod memfs;
pub mod mirror;
pub mod pass;
pub mod paths;
pub mod plan;
pub mod trigger;
