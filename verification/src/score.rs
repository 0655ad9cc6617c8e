//! The scoring engine: weighted fixed-threshold factors for CPU, memory
//! and disks, the overall weighted score, and the category step function.
//!
//! Scores are carried in hundredths of a point: `0..=1000` stands for
//! `0.00..=10.00`.  Factors are whole points held in tenths (`80` is
//! `8.0` points) so that a factor times a weight-in-tenths is exact in
//! hundredths.  Percentage bands are decided on the exact byte ratios,
//! never on a rounded value.

use vstd::prelude::*;

use crate::category::PerformanceCategory;
use crate::snapshot::CpuInfo;
use crate::snapshot::DiskInfo;
use crate::snapshot::RamInfo;
use crate::snapshot::GB;
use crate::snapshot::GIB;
use crate::text::spec_str_contains;
use crate::text::str_contains;

verus! {

/// Upper bound of every score, in hundredths of a point (10.00 points).
pub const MAX_SCORE_CENTI: u32 = 1000;

/// Neutral disk score when no volume is reported (5.00 points).
pub const NEUTRAL_DISK_SCORE_CENTI: u32 = 500;

/// Clamp a score in hundredths of a point to the closed range [0, 10] points.
pub open spec fn spec_clamp(x: int) -> int {
    if x < 0 {
        0
    } else if x > MAX_SCORE_CENTI {
        MAX_SCORE_CENTI as int
    } else {
        x
    }
}

/// Core-count factor, in tenths of a point.
pub open spec fn spec_cores_factor(n: usize) -> int {
    if n <= 1 {
        20
    } else if n == 2 {
        40
    } else if n <= 4 {
        60
    } else if n <= 8 {
        80
    } else {
        100
    }
}

/// Utilization factor (a lower load is better), in tenths of a point;
/// `t` is the utilization in tenths of a percent.
pub open spec fn spec_cpu_usage_factor(t: u32) -> int {
    if t < 300 {
        100
    } else if t < 600 {
        70
    } else if t < 850 {
        40
    } else {
        10
    }
}

/// Frequency factor, in tenths of a point.
pub open spec fn spec_freq_factor(mhz: u64) -> int {
    if mhz < 2000 {
        30
    } else if mhz < 3000 {
        60
    } else if mhz < 4000 {
        80
    } else {
        100
    }
}

/// CPU score in hundredths of a point: the three factors weighted
/// 0.4, 0.4 and 0.2, clamped.
pub open spec fn spec_cpu_score(c: CpuInfo) -> int {
    spec_clamp(
        spec_cores_factor(c.number_cpus) * 4 + spec_cpu_usage_factor(c.cpu_usage_tenths) * 4
            + spec_freq_factor(c.frequency) * 2,
    )
}

/// Memory usage factor, in tenths of a point; bands are decided on the
/// exact ratio `used/total`, and an absent total counts as 0 % used.
pub open spec fn spec_ram_usage_factor(r: RamInfo) -> int {
    if r.total_ram == 0 {
        100
    } else if (r.used_ram as int) * 100 < 60 * (r.total_ram as int) {
        100
    } else if (r.used_ram as int) * 100 < 75 * (r.total_ram as int) {
        70
    } else if (r.used_ram as int) * 100 < 90 * (r.total_ram as int) {
        40
    } else {
        10
    }
}

/// Swap factor, in tenths of a point; a machine without swap gets the
/// fixed neutral value 8.0.
pub open spec fn spec_swap_factor(r: RamInfo) -> int {
    if r.total_swap == 0 {
        80
    } else if (r.used_swap as int) * 100 < 10 * (r.total_swap as int) {
        100
    } else if (r.used_swap as int) * 100 < 30 * (r.total_swap as int) {
        70
    } else if (r.used_swap as int) * 100 < 50 * (r.total_swap as int) {
        40
    } else {
        10
    }
}

/// Memory capacity factor, in tenths of a point, banded on gibibytes.
pub open spec fn spec_ram_capacity_factor(total_ram: u64) -> int {
    if total_ram < 4 * GIB {
        30
    } else if total_ram < 8 * GIB {
        60
    } else if total_ram < 16 * GIB {
        80
    } else {
        100
    }
}

/// Memory score in hundredths of a point: the three factors weighted
/// 0.5, 0.3 and 0.2, clamped.
pub open spec fn spec_ram_score(r: RamInfo) -> int {
    spec_clamp(
        spec_ram_usage_factor(r) * 5 + spec_swap_factor(r) * 3 + spec_ram_capacity_factor(
            r.total_ram,
        ) * 2,
    )
}

/// Volume usage factor, in tenths of a point; an absent total counts as
/// 0 % used.
pub open spec fn spec_disk_usage_factor(d: DiskInfo) -> int {
    if d.total_space == 0 {
        100
    } else if (d.used_space as int) * 100 < 70 * (d.total_space as int) {
        100
    } else if (d.used_space as int) * 100 < 85 * (d.total_space as int) {
        70
    } else if (d.used_space as int) * 100 < 95 * (d.total_space as int) {
        40
    } else {
        10
    }
}

/// Disk kind factor, in tenths of a point, from the kind label.
pub open spec fn spec_disk_type_factor(kind: Seq<char>) -> int {
    if spec_str_contains(kind, "SSD"@) || spec_str_contains(kind, "NVMe"@) {
        100
    } else if spec_str_contains(kind, "HDD"@) {
        60
    } else {
        80
    }
}

/// Free-space factor, in tenths of a point, banded on decimal gigabytes.
pub open spec fn spec_free_space_factor(available: u64) -> int {
    if available > 100 * GB {
        100
    } else if available > 50 * GB {
        80
    } else if available > 20 * GB {
        60
    } else if available > 10 * GB {
        40
    } else {
        10
    }
}

/// Composite score of one volume in hundredths of a point: the three
/// factors weighted 0.5, 0.3 and 0.2, clamped.
pub open spec fn spec_disk_composite(d: DiskInfo) -> int {
    spec_clamp(
        spec_disk_usage_factor(d) * 5 + spec_disk_type_factor(d.disk_type@) * 3
            + spec_free_space_factor(d.available_space) * 2,
    )
}

/// Sum of the composite scores of the first `k` volumes.
pub open spec fn spec_disk_sum(disks: Seq<DiskInfo>, k: int) -> int
    decreases k,
{
    if k <= 0 {
        0
    } else {
        spec_disk_sum(disks, k - 1) + spec_disk_composite(disks[k - 1])
    }
}

/// Disk score in hundredths of a point: the neutral 5.00 when no volume
/// is reported, else the arithmetic mean of the per-volume composites,
/// rounded down to a hundredth.
pub open spec fn spec_disk_score(disks: Seq<DiskInfo>) -> int {
    if disks.len() == 0 {
        NEUTRAL_DISK_SCORE_CENTI as int
    } else {
        spec_disk_sum(disks, disks.len() as int) / disks.len() as int
    }
}

/// Overall score in hundredths of a point: the component scores weighted
/// 0.4, 0.3 and 0.3, rounded down to a hundredth and clamped.
pub open spec fn spec_overall(cpu: int, ram: int, disk: int) -> int {
    spec_clamp((cpu * 4 + ram * 3 + disk * 3) / 10)
}

/// Category of an overall score in hundredths of a point: the four bands
/// meet at 3.00, 5.00 and 7.00 points, each boundary belonging to the
/// higher band.
pub open spec fn spec_category(score_centi: int) -> PerformanceCategory {
    if score_centi < 300 {
        PerformanceCategory::Descarte
    } else if score_centi < 500 {
        PerformanceCategory::Manutencao
    } else if score_centi < 700 {
        PerformanceCategory::Precaucao
    } else {
        PerformanceCategory::BomEstado
    }
}

fn clamp_centi(x: u32) -> (r: u32)
    ensures
        r as int == spec_clamp(x as int),
{
    if x > MAX_SCORE_CENTI {
        MAX_SCORE_CENTI
    } else {
        x
    }
}

/// CPU score of a snapshot, in hundredths of a point.
pub fn calculate_cpu_score(cpu: &CpuInfo) -> (r: u32)
    ensures
        r as int == spec_cpu_score(*cpu),
        r <= MAX_SCORE_CENTI,
{
    let cores_factor: u32 = if cpu.number_cpus <= 1 {
        20
    } else if cpu.number_cpus == 2 {
        40
    } else if cpu.number_cpus <= 4 {
        60
    } else if cpu.number_cpus <= 8 {
        80
    } else {
        100
    };
    let usage_factor: u32 = if cpu.cpu_usage_tenths < 300 {
        100
    } else if cpu.cpu_usage_tenths < 600 {
        70
    } else if cpu.cpu_usage_tenths < 850 {
        40
    } else {
        10
    };
    let freq_factor: u32 = if cpu.frequency < 2000 {
        30
    } else if cpu.frequency < 3000 {
        60
    } else if cpu.frequency < 4000 {
        80
    } else {
        100
    };
    clamp_centi(cores_factor * 4 + usage_factor * 4 + freq_factor * 2)
}

/// The exact band test `used/total * 100 < threshold`, with a zero total
/// counted as 0 % used.
fn usage_below(used: u64, total: u64, threshold: u32) -> (r: bool)
    ensures
        r == (total == 0 || (used as int) * 100 < (threshold as int) * (total as int)),
{
    if total == 0 {
        return true;
    }
    let t: u128 = threshold as u128;
    let tot: u128 = total as u128;
    proof {
        assert(t * tot <= 0xffff_ffffu128 * 0xffff_ffff_ffff_ffffu128) by (nonlinear_arith)
            requires
                t <= 0xffff_ffffu128,
                tot <= 0xffff_ffff_ffff_ffffu128,
        ;
    }
    (used as u128) * 100 < t * tot
}

/// Memory score of a snapshot, in hundredths of a point.
pub fn calculate_ram_score(ram: &RamInfo) -> (r: u32)
    ensures
        r as int == spec_ram_score(*ram),
        r <= MAX_SCORE_CENTI,
{
    let usage_factor: u32 = if usage_below(ram.used_ram, ram.total_ram, 60) {
        100
    } else if usage_below(ram.used_ram, ram.total_ram, 75) {
        70
    } else if usage_below(ram.used_ram, ram.total_ram, 90) {
        40
    } else {
        10
    };
    let swap_factor: u32 = if ram.total_swap == 0 {
        80
    } else if usage_below(ram.used_swap, ram.total_swap, 10) {
        100
    } else if usage_below(ram.used_swap, ram.total_swap, 30) {
        70
    } else if usage_below(ram.used_swap, ram.total_swap, 50) {
        40
    } else {
        10
    };
    let capacity_factor: u32 = if ram.total_ram < 4 * GIB {
        30
    } else if ram.total_ram < 8 * GIB {
        60
    } else if ram.total_ram < 16 * GIB {
        80
    } else {
        100
    };
    clamp_centi(usage_factor * 5 + swap_factor * 3 + capacity_factor * 2)
}

/// Composite score of one volume, in hundredths of a point.
pub fn disk_composite(disk: &DiskInfo) -> (r: u32)
    ensures
        r as int == spec_disk_composite(*disk),
        r <= MAX_SCORE_CENTI,
{
    let usage_factor: u32 = if usage_below(disk.used_space, disk.total_space, 70) {
        100
    } else if usage_below(disk.used_space, disk.total_space, 85) {
        70
    } else if usage_below(disk.used_space, disk.total_space, 95) {
        40
    } else {
        10
    };
    let type_factor: u32 = if str_contains(disk.disk_type.as_str(), "SSD") || str_contains(
        disk.disk_type.as_str(),
        "NVMe",
    ) {
        100
    } else if str_contains(disk.disk_type.as_str(), "HDD") {
        60
    } else {
        80
    };
    let free_factor: u32 = if disk.available_space > 100 * GB {
        100
    } else if disk.available_space > 50 * GB {
        80
    } else if disk.available_space > 20 * GB {
        60
    } else if disk.available_space > 10 * GB {
        40
    } else {
        10
    };
    clamp_centi(usage_factor * 5 + type_factor * 3 + free_factor * 2)
}

/// Disk score of a list of volumes, in hundredths of a point: neutral
/// 5.00 for an empty list, else the mean of the per-volume composites.
pub fn calculate_disk_score(disks: &[DiskInfo]) -> (r: u32)
    ensures
        r as int == spec_disk_score(disks@),
        r <= MAX_SCORE_CENTI,
        disks@.len() == 0 ==> r == NEUTRAL_DISK_SCORE_CENTI,
{
    let n = disks.len();
    if n == 0 {
        return NEUTRAL_DISK_SCORE_CENTI;
    }
    let mut sum: u128 = 0;
    let mut i: usize = 0;
    while i < n
        invariant
            i <= n,
            n == disks@.len(),
            sum == spec_disk_sum(disks@, i as int),
            sum <= 1000 * (i as int),
        decreases n - i,
    {
        let composite = disk_composite(&disks[i]);
        sum = sum + composite as u128;
        i += 1;
    }
    let mean = sum / (n as u128);
    proof {
        assert(mean <= 1000) by (nonlinear_arith)
            requires
                sum <= 1000 * (n as int),
                n > 0,
                mean == sum / (n as u128),
        ;
    }
    mean as u32
}

/// Overall score from the three component scores, in hundredths of a point.
pub fn overall_score(cpu_score: u32, ram_score: u32, disk_score: u32) -> (r: u32)
    requires
        cpu_score <= MAX_SCORE_CENTI,
        ram_score <= MAX_SCORE_CENTI,
        disk_score <= MAX_SCORE_CENTI,
    ensures
        r as int == spec_overall(cpu_score as int, ram_score as int, disk_score as int),
        r <= MAX_SCORE_CENTI,
{
    clamp_centi((cpu_score * 4 + ram_score * 3 + disk_score * 3) / 10)
}

/// Category of an overall score in hundredths of a point.
pub fn determine_category(score_centi: u32) -> (r: PerformanceCategory)
    ensures
        r == spec_category(score_centi as int),
{
    if score_centi < 300 {
        PerformanceCategory::Descarte
    } else if score_centi < 500 {
        PerformanceCategory::Manutencao
    } else if score_centi < 700 {
        PerformanceCategory::Precaucao
    } else {
        PerformanceCategory::BomEstado
    }
}

} // verus!
