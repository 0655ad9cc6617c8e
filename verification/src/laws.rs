//! The engine's guarantees, stated and proved once for all inputs:
//! score ranges, the category partition, the shape of the
//! recommendation list, and determinism of a scoring pass.

use vstd::prelude::*;

use crate::engine::spec_is_score_of;
use crate::engine::PerformanceScore;
use crate::recommend::seq_views;
use crate::recommend::spec_closing_message;
use crate::recommend::spec_general_message;
use crate::recommend::spec_recommendations;
use crate::score::spec_category;
use crate::score::spec_cpu_score;
use crate::score::spec_disk_score;
use crate::score::spec_disk_sum;
use crate::score::spec_overall;
use crate::score::spec_ram_score;
use crate::snapshot::CpuInfo;
use crate::snapshot::DiskInfo;
use crate::snapshot::RamInfo;

verus! {

/// The sum of the first `k` volume composites lies between 0 and
/// 10.00 points times `k`.
pub proof fn lemma_disk_sum_bounds(disks: Seq<DiskInfo>, k: int)
    requires
        0 <= k,
    ensures
        0 <= spec_disk_sum(disks, k) <= 1000 * k,
    decreases k,
{
    if k > 0 {
        lemma_disk_sum_bounds(disks, k - 1);
    }
}

/// Every score the engine produces lies in [0.00, 10.00] points,
/// for every snapshot: the three component scores and the overall score.
pub proof fn lemma_scores_in_range(cpu: CpuInfo, ram: RamInfo, disks: Seq<DiskInfo>)
    ensures
        0 <= spec_cpu_score(cpu) <= 1000,
        0 <= spec_ram_score(ram) <= 1000,
        0 <= spec_disk_score(disks) <= 1000,
        0 <= spec_overall(spec_cpu_score(cpu), spec_ram_score(ram), spec_disk_score(disks))
            <= 1000,
{
    let n = disks.len() as int;
    lemma_disk_sum_bounds(disks, n);
    if n > 0 {
        let s = spec_disk_sum(disks, n);
        assert(0 <= s / n <= 1000) by (nonlinear_arith)
            requires
                n > 0,
                0 <= s <= 1000 * n,
        ;
    }
}

/// The four category bands partition the whole score range without
/// overlap, and each boundary (3.00, 5.00, 7.00 points) belongs to the
/// higher band.
pub proof fn lemma_category_partition(score_centi: int)
    ensures
        spec_category(score_centi) is Descarte <==> score_centi < 300,
        spec_category(score_centi) is Manutencao <==> 300 <= score_centi < 500,
        spec_category(score_centi) is Precaucao <==> 500 <= score_centi < 700,
        spec_category(score_centi) is BomEstado <==> score_centi >= 700,
{
}

/// The recommendation list is never empty: it opens with the general
/// message of the overall score's band and closes with the action
/// statement of the resulting category.
pub proof fn lemma_recommendations_shape(
    cpu: CpuInfo,
    ram: RamInfo,
    disks: Seq<DiskInfo>,
    overall: int,
)
    ensures
        spec_recommendations(cpu, ram, disks, overall).len() >= 2,
        spec_recommendations(cpu, ram, disks, overall).first() == spec_general_message(overall),
        spec_recommendations(cpu, ram, disks, overall).last() == spec_closing_message(
            spec_category(overall),
        ),
{
}

/// Scoring is deterministic: two passes over identical snapshots agree
/// on every score, the category and every recommendation text.
pub proof fn lemma_score_deterministic(
    a: PerformanceScore,
    b: PerformanceScore,
    cpu: CpuInfo,
    ram: RamInfo,
    disks: Seq<DiskInfo>,
)
    requires
        spec_is_score_of(a, cpu, ram, disks),
        spec_is_score_of(b, cpu, ram, disks),
    ensures
        a.overall_score == b.overall_score,
        a.cpu_score == b.cpu_score,
        a.ram_score == b.ram_score,
        a.disk_score == b.disk_score,
        a.category == b.category,
        seq_views(a.recommendations@) == seq_views(b.recommendations@),
{
}

} // verus!
