//! Plain-text rendering of snapshots and scores: progress bars, byte
//! counts in gigabytes, the system report and the score display.
//!
//! Every renderer's output is pinned, character for character, by a
//! spec-level concatenation of the same lines.

use vstd::prelude::*;
use vstd::string::StringExecFns;

use crate::category::spec_color_code;
use crate::category::spec_description;
use crate::category::PerformanceCategory;
use crate::engine::calculate_performance_score;
use crate::engine::PerformanceScore;
use crate::recommend::seq_views;
use crate::recommend::spec_recommendations;
use crate::score::spec_category;
use crate::score::spec_cpu_score;
use crate::score::spec_disk_score;
use crate::score::spec_overall;
use crate::score::spec_ram_score;
use crate::score::MAX_SCORE_CENTI;
use crate::snapshot::spec_usage_tenths;
use crate::snapshot::CpuInfo;
use crate::snapshot::DiskInfo;
use crate::snapshot::RamInfo;
use crate::text::centi_string;
use crate::text::repeat_str;
use crate::text::spec_centi_str;
use crate::text::spec_decimal;
use crate::text::spec_repeat;
use crate::text::spec_tenths_str;
use crate::text::tenths_string;
use crate::text::u64_string;
use crate::text::usize_string;

verus! {

/// Gigabytes in hundredths (decimal: billions of bytes), rounded to the
/// nearest hundredth with ties upward.
pub open spec fn spec_gb_centi(bytes: u64) -> nat {
    (((bytes as nat) + 5_000_000) / 10_000_000) as nat
}

/// A byte count rendered as decimal gigabytes with two decimal places.
pub open spec fn spec_bytes_to_gb(bytes: u64) -> Seq<char> {
    spec_centi_str(spec_gb_centi(bytes))
}

/// A byte count as decimal gigabytes with two decimal places: one
/// billion bytes becomes `"1.00"`.
pub fn bytes_to_gb(bytes: u64) -> (r: String)
    ensures
        r@ == spec_bytes_to_gb(bytes),
{
    let centi128: u128 = ((bytes as u128) + 5_000_000) / 10_000_000;
    proof {
        assert(centi128 <= 0xffff_ffff_ffff_ffffu128) by (nonlinear_arith)
            requires
                centi128 == ((bytes as u128) + 5_000_000) / 10_000_000,
                bytes <= 0xffff_ffff_ffff_ffffu64,
        ;
    }
    centi_string(centi128 as u64)
}

/// Filled width of a progress bar: the rounded share of `w` cells for a
/// percentage in tenths, capped at the full width.
pub open spec fn spec_bar_fill(t: int, w: int) -> int {
    let f = (t * w + 500) / 1000;
    if f > w {
        w
    } else {
        f
    }
}

/// A progress bar of `width` cells for a percentage in tenths: filled
/// cells, then blanks, in square brackets.
pub open spec fn spec_progress_bar(t: u64, width: usize) -> Seq<char> {
    let fill = spec_bar_fill(t as int, width as int);
    "["@ + spec_repeat("█"@, fill as nat) + spec_repeat(" "@, (width - fill) as nat) + "]"@
}

/// An ASCII-art progress bar for a percentage held in tenths.
pub fn progress_bar(percent_tenths: u64, width: usize) -> (r: String)
    ensures
        r@ == spec_progress_bar(percent_tenths, width),
{
    let t: u128 = percent_tenths as u128;
    let w: u128 = width as u128;
    proof {
        assert(t * w <= 0xffff_ffff_ffff_ffffu128 * 0xffff_ffff_ffff_ffffu128)
            by (nonlinear_arith)
            requires
                t <= 0xffff_ffff_ffff_ffffu128,
                w <= 0xffff_ffff_ffff_ffffu128,
        ;
        assert((t * w + 500) / 1000 <= t * w) by (nonlinear_arith);
    }
    let fill_wide: u128 = (t * w + 500) / 1000;
    let fill: usize = if fill_wide > w {
        width
    } else {
        fill_wide as usize
    };
    let mut s = String::from_str("[");
    let filled_part = repeat_str("█", fill);
    s.append(filled_part.as_str());
    let blank_part = repeat_str(" ", width - fill);
    s.append(blank_part.as_str());
    s.append("]");
    s
}

/// The processor section of the system report.
pub open spec fn spec_cpu_section(c: CpuInfo) -> Seq<char> {
    "=== INFORMACOES DA CPU ===\n"@ + "Modelo: "@ + c.name@ + "\n"@ + "Núcleos lógicos: "@
        + spec_decimal(c.number_cpus as nat) + "\n"@ + (match c.physical_cores {
        Some(p) => "Núcleos físicos: "@ + spec_decimal(p as nat) + "\n"@,
        None => Seq::empty(),
    }) + "Frequência: "@ + spec_decimal(c.frequency as nat) + " MHz\n"@ + "Uso atual: "@
        + spec_tenths_str(c.cpu_usage_tenths as nat) + "%\n"@ + "Barra: "@ + spec_progress_bar(
        c.cpu_usage_tenths as u64,
        20,
    ) + "\n\n"@
}

/// The memory section of the system report.
pub open spec fn spec_ram_section(r: RamInfo) -> Seq<char> {
    "=== INFORMACOES DE MEMORIA ===\n"@ + "RAM Total: "@ + spec_bytes_to_gb(r.total_ram)
        + " GB\n"@ + "RAM Usada: "@ + spec_bytes_to_gb(r.used_ram) + " GB ("@ + spec_tenths_str(
        spec_usage_tenths(r.used_ram, r.total_ram) as nat,
    ) + "%)\n"@ + "RAM Livre: "@ + spec_bytes_to_gb(r.free_ram) + " GB\n"@ + "Barra: "@
        + spec_progress_bar(spec_usage_tenths(r.used_ram, r.total_ram) as u64, 20) + "\n"@ + (
    if r.total_swap > 0 {
        "\nSWAP Total: "@ + spec_bytes_to_gb(r.total_swap) + " GB\n"@ + "SWAP Usado: "@
            + spec_bytes_to_gb(r.used_swap) + " GB ("@ + spec_tenths_str(
            spec_usage_tenths(r.used_swap, r.total_swap) as nat,
        ) + "%)\n"@
    } else {
        Seq::empty()
    }) + "\n"@
}

/// The report entry of one volume, numbered from 1.
pub open spec fn spec_disk_entry(d: DiskInfo, idx1: nat) -> Seq<char> {
    "\nDisco "@ + spec_decimal(idx1) + ":\n"@ + "  Nome: "@ + d.name@ + "\n"@
        + "  Ponto de montagem: "@ + d.mount_point@ + "\n"@ + "  Sistema de arquivos: "@
        + d.file_system@ + "\n"@ + "  Tipo: "@ + d.disk_type@ + "\n"@ + "  Capacidade: "@
        + spec_bytes_to_gb(d.total_space) + " GB\n"@ + "  Usado: "@ + spec_bytes_to_gb(
        d.used_space,
    ) + " GB\n"@ + "  Livre: "@ + spec_bytes_to_gb(d.available_space) + " GB\n"@ + "  Uso: "@
        + spec_tenths_str(spec_usage_tenths(d.used_space, d.total_space) as nat) + "%\n"@
        + "  Barra: "@ + spec_progress_bar(
        spec_usage_tenths(d.used_space, d.total_space) as u64,
        20,
    ) + "\n"@
}

/// The report entries of the first `k` volumes.
pub open spec fn spec_disk_entries(disks: Seq<DiskInfo>, k: int) -> Seq<char>
    decreases k,
{
    if k <= 0 {
        Seq::empty()
    } else {
        spec_disk_entries(disks, k - 1) + spec_disk_entry(disks[k - 1], k as nat)
    }
}

/// The storage section of the system report.
pub open spec fn spec_disk_section(disks: Seq<DiskInfo>) -> Seq<char> {
    "=== INFORMACOES DE ARMAZENAMENTO ===\n"@ + (if disks.len() == 0 {
        "Nenhum disco encontrado.\n"@
    } else {
        spec_disk_entries(disks, disks.len() as int)
    })
}

/// The whole system report: processor, memory, then storage.
pub open spec fn spec_report(cpu: CpuInfo, ram: RamInfo, disks: Seq<DiskInfo>) -> Seq<char> {
    spec_cpu_section(cpu) + spec_ram_section(ram) + spec_disk_section(disks)
}

fn report_cpu_section(cpu: &CpuInfo) -> (r: String)
    ensures
        r@ == spec_cpu_section(*cpu),
{
    let mut s = String::from_str("=== INFORMACOES DA CPU ===\n");
    s.append("Modelo: ");
    s.append(cpu.name.as_str());
    s.append("\n");
    s.append("Núcleos lógicos: ");
    let cores = usize_string(cpu.number_cpus);
    s.append(cores.as_str());
    s.append("\n");
    if let Some(p) = cpu.physical_cores {
        s.append("Núcleos físicos: ");
        let phys = usize_string(p);
        s.append(phys.as_str());
        s.append("\n");
    }
    s.append("Frequência: ");
    let freq = u64_string(cpu.frequency);
    s.append(freq.as_str());
    s.append(" MHz\n");
    s.append("Uso atual: ");
    let usage = tenths_string(cpu.cpu_usage_tenths as u64);
    s.append(usage.as_str());
    s.append("%\n");
    s.append("Barra: ");
    let bar = progress_bar(cpu.cpu_usage_tenths as u64, 20);
    s.append(bar.as_str());
    s.append("\n\n");
    proof {
        assert(s@ =~= spec_cpu_section(*cpu));
    }
    s
}

fn report_ram_section(ram: &RamInfo) -> (r: String)
    ensures
        r@ == spec_ram_section(*ram),
{
    let mut s = String::from_str("=== INFORMACOES DE MEMORIA ===\n");
    s.append("RAM Total: ");
    let total = bytes_to_gb(ram.total_ram);
    s.append(total.as_str());
    s.append(" GB\n");
    s.append("RAM Usada: ");
    let used = bytes_to_gb(ram.used_ram);
    s.append(used.as_str());
    s.append(" GB (");
    let pct = tenths_string(ram.ram_usage_tenths());
    s.append(pct.as_str());
    s.append("%)\n");
    s.append("RAM Livre: ");
    let free = bytes_to_gb(ram.free_ram);
    s.append(free.as_str());
    s.append(" GB\n");
    s.append("Barra: ");
    let bar = progress_bar(ram.ram_usage_tenths(), 20);
    s.append(bar.as_str());
    s.append("\n");
    if ram.total_swap > 0 {
        s.append("\nSWAP Total: ");
        let swap_total = bytes_to_gb(ram.total_swap);
        s.append(swap_total.as_str());
        s.append(" GB\n");
        s.append("SWAP Usado: ");
        let swap_used = bytes_to_gb(ram.used_swap);
        s.append(swap_used.as_str());
        s.append(" GB (");
        let swap_pct = tenths_string(ram.swap_usage_tenths());
        s.append(swap_pct.as_str());
        s.append("%)\n");
    }
    s.append("\n");
    proof {
        assert(s@ =~= spec_ram_section(*ram));
    }
    s
}

fn report_disk_entry(disk: &DiskInfo, idx1: usize) -> (r: String)
    ensures
        r@ == spec_disk_entry(*disk, idx1 as nat),
{
    let mut s = String::from_str("\nDisco ");
    let idx = usize_string(idx1);
    s.append(idx.as_str());
    s.append(":\n");
    s.append("  Nome: ");
    s.append(disk.name.as_str());
    s.append("\n");
    s.append("  Ponto de montagem: ");
    s.append(disk.mount_point.as_str());
    s.append("\n");
    s.append("  Sistema de arquivos: ");
    s.append(disk.file_system.as_str());
    s.append("\n");
    s.append("  Tipo: ");
    s.append(disk.disk_type.as_str());
    s.append("\n");
    s.append("  Capacidade: ");
    let total = bytes_to_gb(disk.total_space);
    s.append(total.as_str());
    s.append(" GB\n");
    s.append("  Usado: ");
    let used = bytes_to_gb(disk.used_space);
    s.append(used.as_str());
    s.append(" GB\n");
    s.append("  Livre: ");
    let free = bytes_to_gb(disk.available_space);
    s.append(free.as_str());
    s.append(" GB\n");
    s.append("  Uso: ");
    let pct = tenths_string(disk.usage_tenths());
    s.append(pct.as_str());
    s.append("%\n");
    s.append("  Barra: ");
    let bar = progress_bar(disk.usage_tenths(), 20);
    s.append(bar.as_str());
    s.append("\n");
    proof {
        assert(s@ =~= spec_disk_entry(*disk, idx1 as nat));
    }
    s
}

fn report_disk_section(disks: &[DiskInfo]) -> (r: String)
    ensures
        r@ == spec_disk_section(disks@),
{
    let mut s = String::from_str("=== INFORMACOES DE ARMAZENAMENTO ===\n");
    if disks.len() == 0 {
        s.append("Nenhum disco encontrado.\n");
        return s;
    }
    let mut i: usize = 0;
    while i < disks.len()
        invariant
            i <= disks@.len(),
            disks@.len() > 0,
            s@ == "=== INFORMACOES DE ARMAZENAMENTO ===\n"@ + spec_disk_entries(
                disks@,
                i as int,
            ),
        decreases disks@.len() - i,
    {
        let entry = report_disk_entry(&disks[i], i + 1);
        s.append(entry.as_str());
        i += 1;
    }
    s
}

/// The plain-text system report for the given snapshots: a processor
/// section, a memory section and one entry per volume.
pub fn generate_report(cpu: &CpuInfo, ram: &RamInfo, disks: &[DiskInfo]) -> (r: String)
    ensures
        r@ == spec_report(*cpu, *ram, disks@),
{
    let mut s = report_cpu_section(cpu);
    let ram_section = report_ram_section(ram);
    s.append(ram_section.as_str());
    let disk_section = report_disk_section(disks);
    s.append(disk_section.as_str());
    s
}

/// A score in hundredths rendered with one decimal place, rounded to
/// the nearest tenth with ties upward.
pub open spec fn spec_score_tenths_str(c: int) -> Seq<char> {
    spec_tenths_str(((c + 5) / 10) as nat)
}

/// The numbered recommendation lines of the first `k` messages.
pub open spec fn spec_recommendation_lines(recs: Seq<Seq<char>>, k: int) -> Seq<char>
    decreases k,
{
    if k <= 0 {
        Seq::empty()
    } else {
        spec_recommendation_lines(recs, k - 1) + "  "@ + spec_decimal(k as nat) + ". "@ + recs[k
            - 1] + "\n"@
    }
}

/// The score display, from the displayed fields alone: scores in
/// hundredths of a point, the category and the recommendation texts.
pub open spec fn spec_display_parts(
    overall: int,
    cpu_c: int,
    ram_c: int,
    disk_c: int,
    cat: PerformanceCategory,
    recs: Seq<Seq<char>>,
) -> Seq<char> {
    let fill = spec_bar_fill(overall, 40);
    spec_repeat("="@, 60) + "\n"@
        + "           📊 PONTUAÇÃO DE DESEMPENHO DA MÁQUINA           \n"@ + spec_repeat(
        "="@,
        60,
    ) + "\n\n"@ + "PONTUAÇÃO GERAL: "@ + spec_score_tenths_str(overall) + "/10.0\n"@ + "["@
        + spec_repeat("█"@, fill as nat) + spec_repeat("░"@, (40 - fill) as nat) + "]\n\n"@
        + "CATEGORIA: "@ + spec_color_code(cat) + spec_description(cat) + "\u{1b}[0m"@ + "\n\n"@
        + "PONTUAÇÕES DETALHADAS:\n"@ + "  • CPU:      "@ + spec_score_tenths_str(cpu_c)
        + "/10.0\n"@ + "  • RAM:      "@ + spec_score_tenths_str(ram_c) + "/10.0\n"@
        + "  • Discos:   "@ + spec_score_tenths_str(disk_c) + "/10.0\n\n"@
        + "LEGENDA DAS CATEGORIAS:\n"@ + "  1-2  → DESCARTE/UPGRADE COMPLETO\n"@
        + "  3-4  → MANUTENÇÃO URGENTE\n"@ + "  5-6  → USO COM PRECAUÇÃO\n"@
        + "  7-10 → BOM ESTADO DE USO\n\n"@ + (if recs.len() > 0 {
        "RECOMENDAÇÕES:\n"@ + spec_recommendation_lines(recs, recs.len() as int)
    } else {
        Seq::empty()
    })
}

/// The score display of a result value.
pub open spec fn spec_display(s: PerformanceScore) -> Seq<char> {
    spec_display_parts(
        s.overall_score as int,
        s.cpu_score as int,
        s.ram_score as int,
        s.disk_score as int,
        s.category,
        seq_views(s.recommendations@),
    )
}

/// The formatted score display: overall bar, category, detailed scores,
/// the band legend, and the numbered recommendations.
pub fn display_performance_score(score: &PerformanceScore) -> (r: String)
    requires
        score.overall_score <= MAX_SCORE_CENTI,
    ensures
        r@ == spec_display(*score),
{
    let sep = repeat_str("=", 60);
    let mut s = sep.clone();
    s.append("\n");
    s.append("           📊 PONTUAÇÃO DE DESEMPENHO DA MÁQUINA           \n");
    s.append(sep.as_str());
    s.append("\n\n");
    s.append("PONTUAÇÃO GERAL: ");
    let overall_str = tenths_string((score.overall_score as u64 + 5) / 10);
    s.append(overall_str.as_str());
    s.append("/10.0\n");

    let fill128: u128 = ((score.overall_score as u128) * 40 + 500) / 1000;
    let fill: usize = if fill128 > 40 {
        40
    } else {
        fill128 as usize
    };
    s.append("[");
    let filled_part = repeat_str("█", fill);
    s.append(filled_part.as_str());
    let blank_part = repeat_str("░", 40 - fill);
    s.append(blank_part.as_str());
    s.append("]\n\n");

    s.append("CATEGORIA: ");
    s.append(score.category.color_code());
    s.append(score.category.description());
    s.append(PerformanceCategory::reset_color());
    s.append("\n\n");

    s.append("PONTUAÇÕES DETALHADAS:\n");
    s.append("  • CPU:      ");
    let cpu_str = tenths_string((score.cpu_score as u64 + 5) / 10);
    s.append(cpu_str.as_str());
    s.append("/10.0\n");
    s.append("  • RAM:      ");
    let ram_str = tenths_string((score.ram_score as u64 + 5) / 10);
    s.append(ram_str.as_str());
    s.append("/10.0\n");
    s.append("  • Discos:   ");
    let disk_str = tenths_string((score.disk_score as u64 + 5) / 10);
    s.append(disk_str.as_str());
    s.append("/10.0\n\n");

    s.append("LEGENDA DAS CATEGORIAS:\n");
    s.append("  1-2  → DESCARTE/UPGRADE COMPLETO\n");
    s.append("  3-4  → MANUTENÇÃO URGENTE\n");
    s.append("  5-6  → USO COM PRECAUÇÃO\n");
    s.append("  7-10 → BOM ESTADO DE USO\n\n");

    let block = recommendation_block(&score.recommendations);
    s.append(block.as_str());
    proof {
        assert(s@ =~= spec_display(*score));
    }
    s
}

fn recommendation_block(recs: &Vec<String>) -> (r: String)
    ensures
        r@ == (if recs@.len() > 0 {
            "RECOMENDAÇÕES:\n"@ + spec_recommendation_lines(seq_views(recs@), recs@.len() as int)
        } else {
            Seq::<char>::empty()
        }),
{
    let mut s = String::new();
    if recs.len() == 0 {
        return s;
    }
    s.append("RECOMENDAÇÕES:\n");
    let mut i: usize = 0;
    while i < recs.len()
        invariant
            i <= recs@.len(),
            s@ == "RECOMENDAÇÕES:\n"@ + spec_recommendation_lines(seq_views(recs@), i as int),
        decreases recs@.len() - i,
    {
        s.append("  ");
        let num = usize_string(i + 1);
        s.append(num.as_str());
        s.append(". ");
        let rec = &recs[i];
        s.append(rec.as_str());
        s.append("\n");
        proof {
            assert(s@ =~= "RECOMENDAÇÕES:\n"@ + spec_recommendation_lines(
                seq_views(recs@),
                i + 1,
            ));
        }
        i += 1;
    }
    s
}

/// The full report: the system report followed by the score display of
/// one scoring pass over the same snapshots.
pub open spec fn spec_complete_report(
    cpu: CpuInfo,
    ram: RamInfo,
    disks: Seq<DiskInfo>,
) -> Seq<char> {
    let cpu_c = spec_cpu_score(cpu);
    let ram_c = spec_ram_score(ram);
    let disk_c = spec_disk_score(disks);
    let overall = spec_overall(cpu_c, ram_c, disk_c);
    spec_report(cpu, ram, disks) + "\n"@ + spec_display_parts(
        overall,
        cpu_c,
        ram_c,
        disk_c,
        spec_category(overall),
        spec_recommendations(cpu, ram, disks, overall),
    )
}

/// The system report followed by a fresh scoring pass, for saving to a
/// file or printing whole.
pub fn generate_complete_report(cpu: &CpuInfo, ram: &RamInfo, disks: &[DiskInfo]) -> (r: String)
    ensures
        r@ == spec_complete_report(*cpu, *ram, disks@),
{
    let mut s = generate_report(cpu, ram, disks);
    s.append("\n");
    let score = calculate_performance_score(cpu, ram, disks);
    let display = display_performance_score(&score);
    s.append(display.as_str());
    s
}

} // verus!
