use crate::paths::EntryPath;
use crate::time::Timestamp;
use vstd::prelude::*;

verus! {

/// Why a run fails. Every variant is fatal: the whole run stops, nothing is
/// retried.
#[derive(Debug, PartialEq, Eq)]
pub enum CleanError {
    /// No condition was configured, so there is nothing to check. Raised
    /// before any entry is looked at.
    NoConditions,
    /// A duration string could not be understood, or named a negative
    /// duration.
    InvalidDuration { input: String },
    /// An entry's modified time lies after the reference time that the
    /// condition captured, so its age is ill-defined. Both times are kept so
    /// the clock problem can be diagnosed.
    ClockSkew { path: EntryPath, now: Timestamp, modified: Timestamp },
}

} // verus!
