//! Removes stale files from a directory: list, filter by age and name
//! patterns, confirm, delete, report. This library holds the decision
//! logic; the surrounding binary does the filesystem and terminal work.

use vstd::prelude::*;

pub mod config;
pub mod confirm;
pub mod display;
pub mod eligibility;
pub mod report;
pub mod text;

verus! {

/// Seconds in one day, the unit of the age threshold.
pub const SECS_IN_A_DAY: u64 = 60 * 60 * 24;

/// Default age threshold, in days.
pub const DEFAULT_NUMBER_OF_DAYS: u64 = 600;

/// A file found in the target directory: its name (no path) and its
/// last-modified time as seconds since the Unix epoch.
pub struct FileWithModifiedTime {
    pub name: String,
    pub modified_secs: u64,
}

} // verus!
