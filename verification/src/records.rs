//! The data the daemon produces and persists.
//!
//! All instants are milliseconds since an epoch the caller chooses, and all
//! durations are milliseconds; both are plain integers so that every rule
//! about them can be stated and checked exactly.

use vstd::prelude::*;

verus! {

/// A closed usage interval: one window identity held focus for `duration`
/// milliseconds starting at `datetime`.
///
/// `datetime` is back-dated to when the interval began (the moment the
/// window took focus), not the moment the record was created.  A record is
/// immutable once created, and its duration may be zero: rapid focus
/// flapping still produces one record per transition, with no
/// minimum-duration filtering.
#[derive(Debug, PartialEq)]
pub struct Window {
    /// Start of the interval, in milliseconds since the epoch.
    pub datetime: u64,
    /// Title of the window that held focus.
    pub title: String,
    /// Class (application category tag) of the window.
    pub class: String,
    /// Length of the interval in milliseconds.
    pub duration: u64,
}

/// Total usage attributed to one application class, as report queries
/// return it.
#[derive(Debug, PartialEq)]
pub struct AppUsage {
    /// The application class the usage is attributed to.
    pub app: String,
    /// Total attributed time in milliseconds.
    pub duration: u64,
}

} // verus!
