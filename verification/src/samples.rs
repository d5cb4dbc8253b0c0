//! Raw samples as the stat providers hand them over, reduced to plain
//! values.
//!
//! Every reading is a float64 carried as its IEEE 754 bit pattern, and every
//! device or mount identifier is carried as its string rendering. A field
//! the underlying platform does not expose arrives as `None` and the
//! corresponding metric name is simply omitted for the cycle.

use vstd::prelude::*;

verus! {

/// Cumulative CPU time of one logical CPU, in seconds per mode.
pub struct CpuTimes {
    pub idle: u64,
    pub system: u64,
    pub user: u64,
    /// Time spent on low-priority work, where the platform exposes it.
    pub nice: Option<u64>,
}

/// One memory snapshot, in bytes; everything beyond the first three fields
/// is platform-dependent.
pub struct MemorySample {
    pub total: u64,
    pub free: u64,
    pub available: u64,
    pub active: Option<u64>,
    pub buffers: Option<u64>,
    pub cached: Option<u64>,
    pub shared: Option<u64>,
    pub used: Option<u64>,
    pub inactive: Option<u64>,
    pub wired: Option<u64>,
}

/// One swap snapshot, in bytes; the cumulative in/out totals are
/// platform-dependent.
pub struct SwapSample {
    pub free: u64,
    pub total: u64,
    pub used: u64,
    pub swapped_in: Option<u64>,
    pub swapped_out: Option<u64>,
}

/// One load-average reading.
pub struct LoadAvgSample {
    pub load1: u64,
    pub load5: u64,
    pub load15: u64,
}

/// Host uptime and boot time, in seconds; each query can fail on its own.
pub struct HostSample {
    pub uptime: Option<u64>,
    pub boot_time: Option<u64>,
}

/// Cumulative I/O counters of one network interface.
pub struct NetworkCounters {
    pub interface: String,
    pub receive_bytes: u64,
    pub receive_errs: u64,
    pub receive_packets: u64,
    pub transmit_bytes: u64,
    pub transmit_errs: u64,
    /// Dropped outgoing packets, where the platform exposes them.
    pub transmit_packets_drop: Option<u64>,
    /// Sent packets, where the platform exposes them.
    pub transmit_packets: Option<u64>,
}

/// Usage of one mounted filesystem, in bytes.
pub struct FilesystemUsage {
    pub free: u64,
    pub total: u64,
    pub used: u64,
    /// Used fraction, where the platform exposes it.
    pub used_ratio: Option<u64>,
}

/// One partition: its identifiers and, when the usage query succeeded, its
/// usage. A partition whose usage query failed is skipped.
pub struct PartitionUsage {
    /// Device path rendering, absent for virtual filesystems.
    pub device: Option<String>,
    pub filesystem: String,
    /// Mount point path rendering.
    pub mountpoint: String,
    pub usage: Option<FilesystemUsage>,
}

/// Cumulative I/O counters of one block device.
pub struct DiskCounters {
    pub device_name: String,
    pub read_bytes: u64,
    pub reads_completed: u64,
    pub written_bytes: u64,
    pub writes_completed: u64,
}

} // verus!
