//! The engine entry point: one scoring pass from the three snapshots to
//! the full result.

use vstd::prelude::*;

use crate::category::PerformanceCategory;
use crate::recommend::generate_recommendations;
use crate::recommend::seq_views;
use crate::recommend::spec_recommendations;
use crate::score::calculate_cpu_score;
use crate::score::calculate_disk_score;
use crate::score::calculate_ram_score;
use crate::score::determine_category;
use crate::score::overall_score;
use crate::score::spec_category;
use crate::score::spec_cpu_score;
use crate::score::spec_disk_score;
use crate::score::spec_overall;
use crate::score::spec_ram_score;
use crate::score::MAX_SCORE_CENTI;
use crate::snapshot::CpuInfo;
use crate::snapshot::DiskInfo;
use crate::snapshot::RamInfo;

verus! {

/// Version of the scoring library.
pub const VERSION: &'static str = "1.0.0";

/// The outcome of one scoring pass.  Every score is held in hundredths
/// of a point, `0..=1000` for `0.00..=10.00`.
#[derive(Debug, Clone)]
pub struct PerformanceScore {
    /// Overall weighted score.
    pub overall_score: u32,
    /// Processor component score.
    pub cpu_score: u32,
    /// Memory component score.
    pub ram_score: u32,
    /// Disk component score.
    pub disk_score: u32,
    /// Condition category of the overall score.
    pub category: PerformanceCategory,
    /// Ordered recommendation messages.
    pub recommendations: Vec<String>,
}

/// `s` is exactly the outcome the engine owes to the given snapshots:
/// each component score, the overall score, the category and the
/// recommendation texts are pinned as functions of the input alone.
pub open spec fn spec_is_score_of(
    s: PerformanceScore,
    cpu: CpuInfo,
    ram: RamInfo,
    disks: Seq<DiskInfo>,
) -> bool {
    &&& s.cpu_score as int == spec_cpu_score(cpu)
    &&& s.ram_score as int == spec_ram_score(ram)
    &&& s.disk_score as int == spec_disk_score(disks)
    &&& s.overall_score as int == spec_overall(
        spec_cpu_score(cpu),
        spec_ram_score(ram),
        spec_disk_score(disks),
    )
    &&& s.category == spec_category(s.overall_score as int)
    &&& seq_views(s.recommendations@) == spec_recommendations(
        cpu,
        ram,
        disks,
        s.overall_score as int,
    )
}

/// One scoring pass: the three component scores, the overall weighted
/// score, its category, and the recommendation list.
pub fn calculate_performance_score(cpu: &CpuInfo, ram: &RamInfo, disks: &[DiskInfo]) -> (r:
    PerformanceScore)
    ensures
        spec_is_score_of(r, *cpu, *ram, disks@),
        r.overall_score <= MAX_SCORE_CENTI,
        r.cpu_score <= MAX_SCORE_CENTI,
        r.ram_score <= MAX_SCORE_CENTI,
        r.disk_score <= MAX_SCORE_CENTI,
{
    let cpu_score = calculate_cpu_score(cpu);
    let ram_score = calculate_ram_score(ram);
    let disk_score = calculate_disk_score(disks);
    let overall = overall_score(cpu_score, ram_score, disk_score);
    let category = determine_category(overall);
    let recommendations = generate_recommendations(cpu, ram, disks, overall);
    PerformanceScore {
        overall_score: overall,
        cpu_score,
        ram_score,
        disk_score,
        category,
        recommendations,
    }
}

} // verus!
