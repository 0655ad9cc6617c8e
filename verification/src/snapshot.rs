//! Snapshot value types: plain-integer captures of the processor, memory
//! and disk state that the scoring engine consumes.

use vstd::prelude::*;

verus! {

/// Bytes in one gibibyte (binary), the divisor for memory capacity bands.
pub const GIB: u64 = 1_073_741_824;

/// Bytes in one decimal gigabyte, the divisor for disk space bands.
pub const GB: u64 = 1_000_000_000;

/// A point-in-time capture of the machine's processor state.
///
/// Utilization is carried in tenths of a percent (`350` means `35.0 %`),
/// so the snapshot is made of plain integers.
#[derive(Debug, Clone)]
pub struct CpuInfo {
    /// Logical core count.
    pub number_cpus: usize,
    /// Aggregate utilization in tenths of a percent.
    pub cpu_usage_tenths: u32,
    /// Clock frequency in MHz.
    pub frequency: u64,
    /// Model name.
    pub name: String,
    /// Physical core count, when the host reports one.
    pub physical_cores: Option<usize>,
}

/// A point-in-time capture of primary memory and swap, in bytes.
#[derive(Debug, Clone)]
pub struct RamInfo {
    /// Total primary memory in bytes.
    pub total_ram: u64,
    /// Used primary memory in bytes.
    pub used_ram: u64,
    /// Free primary memory in bytes.
    pub free_ram: u64,
    /// Total swap in bytes.
    pub total_swap: u64,
    /// Used swap in bytes.
    pub used_swap: u64,
}

/// A point-in-time capture of one storage volume.
#[derive(Debug, Clone)]
pub struct DiskInfo {
    /// Device name.
    pub name: String,
    /// Mount point.
    pub mount_point: String,
    /// Total space in bytes.
    pub total_space: u64,
    /// Available space in bytes.
    pub available_space: u64,
    /// Used space in bytes (total minus available, by convention).
    pub used_space: u64,
    /// File system label.
    pub file_system: String,
    /// Disk kind label, e.g. "HDD", "SSD" or "NVMe".
    pub disk_type: String,
}

/// Usage percentage in tenths of a percent, rounded to the nearest tenth
/// (ties upward), and `0` when the total is `0`.  The value is saturated
/// at `u64::MAX`, which is only reached when `used` exceeds `total` by
/// many orders of magnitude.
pub open spec fn spec_usage_tenths(used: u64, total: u64) -> int {
    if total == 0 {
        0
    } else {
        let q = ((used as int) * 1000 + (total as int) / 2) / (total as int);
        if q > u64::MAX { u64::MAX as int } else { q }
    }
}

/// Shared computation behind the derived usage percentages.
fn usage_tenths(used: u64, total: u64) -> (r: u64)
    ensures
        r as int == spec_usage_tenths(used, total),
{
    if total == 0 {
        0
    } else {
        let q: u128 = ((used as u128) * 1000 + (total as u128) / 2) / (total as u128);
        if q > u64::MAX as u128 {
            u64::MAX
        } else {
            q as u64
        }
    }
}

impl RamInfo {
    /// Primary memory usage in tenths of a percent; `0` when no memory
    /// is reported.
    pub fn ram_usage_tenths(&self) -> (r: u64)
        ensures
            r as int == spec_usage_tenths(self.used_ram, self.total_ram),
            self.total_ram == 0 ==> r == 0,
    {
        usage_tenths(self.used_ram, self.total_ram)
    }

    /// Swap usage in tenths of a percent; `0` when no swap is configured.
    pub fn swap_usage_tenths(&self) -> (r: u64)
        ensures
            r as int == spec_usage_tenths(self.used_swap, self.total_swap),
            self.total_swap == 0 ==> r == 0,
    {
        usage_tenths(self.used_swap, self.total_swap)
    }
}

impl DiskInfo {
    /// Volume usage in tenths of a percent; `0` when the volume reports
    /// no capacity.
    pub fn usage_tenths(&self) -> (r: u64)
        ensures
            r as int == spec_usage_tenths(self.used_space, self.total_space),
            self.total_space == 0 ==> r == 0,
    {
        usage_tenths(self.used_space, self.total_space)
    }
}

} // verus!
