//! The four-way condition category and its presentation metadata.

use vstd::prelude::*;

verus! {

/// Condition category of a machine, derived from the overall score.
///
/// The four tiers are ordered from worst to best and partition the whole
/// score range: below 3.0 points, 3.0 to 5.0, 5.0 to 7.0, and 7.0 points
/// or more (each band closed at its lower end).
#[derive(Debug, Clone, Copy, PartialEq, Eq, Structural)]
pub enum PerformanceCategory {
    /// Below 3.0 points: discard or a complete upgrade is needed.
    Descarte,
    /// 3.0 to 5.0 points: urgent maintenance is needed.
    Manutencao,
    /// 5.0 to 7.0 points: usable under constant monitoring.
    Precaucao,
    /// 7.0 points or more: fit for normal use.
    BomEstado,
}

/// Human-readable description of a category.
pub open spec fn spec_description(c: PerformanceCategory) -> Seq<char> {
    match c {
        PerformanceCategory::Descarte => "DESCARTE - Upgrade completo necessário"@,
        PerformanceCategory::Manutencao => "MANUTENÇÃO URGENTE - Requer ações corretivas"@,
        PerformanceCategory::Precaucao => "USO COM PRECAUÇÃO - Monitorar constantemente"@,
        PerformanceCategory::BomEstado => "BOM ESTADO - Adequado para uso normal"@,
    }
}

/// ANSI display accent of a category.
pub open spec fn spec_color_code(c: PerformanceCategory) -> Seq<char> {
    match c {
        PerformanceCategory::Descarte => "\u{1b}[31m"@,
        PerformanceCategory::Manutencao => "\u{1b}[33m"@,
        PerformanceCategory::Precaucao => "\u{1b}[93m"@,
        PerformanceCategory::BomEstado => "\u{1b}[32m"@,
    }
}

impl PerformanceCategory {
    /// Description of the category for reports and console output.
    pub fn description(&self) -> (r: &'static str)
        ensures
            r@ == spec_description(*self),
    {
        match self {
            PerformanceCategory::Descarte => "DESCARTE - Upgrade completo necessário",
            PerformanceCategory::Manutencao => "MANUTENÇÃO URGENTE - Requer ações corretivas",
            PerformanceCategory::Precaucao => "USO COM PRECAUÇÃO - Monitorar constantemente",
            PerformanceCategory::BomEstado => "BOM ESTADO - Adequado para uso normal",
        }
    }

    /// ANSI color escape used when the category is displayed.
    pub fn color_code(&self) -> (r: &'static str)
        ensures
            r@ == spec_color_code(*self),
    {
        match self {
            PerformanceCategory::Descarte => "\u{1b}[31m",
            PerformanceCategory::Manutencao => "\u{1b}[33m",
            PerformanceCategory::Precaucao => "\u{1b}[93m",
            PerformanceCategory::BomEstado => "\u{1b}[32m",
        }
    }

    /// ANSI reset escape that closes a colored span.
    pub fn reset_color() -> (r: &'static str)
        ensures
            r@ == "\u{1b}[0m"@,
    {
        "\u{1b}[0m"
    }
}

} // verus!
