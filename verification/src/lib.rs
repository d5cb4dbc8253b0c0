//! Host-level resource metrics: a verified filtering and collection core.
//!
//! The library models one capture cycle of a host metrics source: glob-based
//! include/exclude filtering of devices, mountpoints and filesystems; the
//! construction of uniform metric records per resource category; and the
//! orchestration that merges, tags and namespaces them. Statistics
//! acquisition, delivery and timing live outside the library and hand it
//! plain values.

use vstd::prelude::*;

pub mod capture;
pub mod collectors;
pub mod config;
pub mod filter;
pub mod laws;
pub mod metric;
pub mod pattern;
pub mod samples;
pub mod scheduler;

verus! {

/// Default scrape interval, in seconds, applied when the configuration
/// does not set one.
pub fn default_scrape_interval() -> (r: u64)
    ensures
        r == 15,
{
    15
}

} // verus!
