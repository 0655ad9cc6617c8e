//! Recommendation generation: a deterministic, order-preserving list of
//! messages derived from the snapshots and the overall score.
//!
//! The list always opens with the general message of the score band and
//! always closes with the action statement of the category; between the
//! two stand the component warnings whose conditions hold, in a fixed
//! order (CPU, memory, then each volume in turn).

use vstd::prelude::*;
use vstd::string::StringExecFns;

use crate::category::PerformanceCategory;
use crate::score::determine_category;
use crate::score::spec_category;
use crate::snapshot::spec_usage_tenths;
use crate::snapshot::CpuInfo;
use crate::snapshot::DiskInfo;
use crate::snapshot::RamInfo;
use crate::snapshot::GB;
use crate::snapshot::GIB;
use crate::text::spec_str_contains;
use crate::text::spec_tenths_str;
use crate::text::str_contains;
use crate::text::tenths_string;

verus! {

/// The views of a list of strings.
pub open spec fn seq_views(ss: Seq<String>) -> Seq<Seq<char>> {
    ss.map_values(|s: String| s@)
}

/// General message of an overall score band, in hundredths of a point.
pub open spec fn spec_general_message(overall: int) -> Seq<char> {
    if overall < 300 {
        "🛑 CONSIDERE DESCARTE: A máquina está em estado crítico"@
    } else if overall < 500 {
        "⚠️ MANUTENÇÃO URGENTE: A máquina requer intervenção imediata"@
    } else if overall < 700 {
        "🔶 USO COM PRECAUÇÃO: Monitore o desempenho regularmente"@
    } else {
        "✅ BOM ESTADO: A máquina está adequada para uso normal"@
    }
}

/// Closing action statement of a category.
pub open spec fn spec_closing_message(c: PerformanceCategory) -> Seq<char> {
    match c {
        PerformanceCategory::Descarte => "📋 Ação recomendada: Substituir equipamento"@,
        PerformanceCategory::Manutencao => "📋 Ação recomendada: Manutenção técnica urgente"@,
        PerformanceCategory::Precaucao => "📋 Ação recomendada: Monitoramento contínuo"@,
        PerformanceCategory::BomEstado => "📋 Ação recomendada: Manutenção preventiva regular"@,
    }
}

/// Processor warnings: a high-load warning above 80 % utilization, and a
/// multitasking warning below two logical cores.
pub open spec fn spec_cpu_recs(c: CpuInfo) -> Seq<Seq<char>> {
    (if c.cpu_usage_tenths > 800 {
        seq!["🔴 CPU: Uso muito alto. Verifique processos desnecessários"@]
    } else {
        Seq::empty()
    }) + (if c.number_cpus < 2 {
        seq!["🟡 CPU: Apenas 1 núcleo detectado. Limitação para multitarefa"@]
    } else {
        Seq::empty()
    })
}

/// Memory warnings: usage above 85 %, a total under 4 GiB, and swap
/// usage above 50 %.  The percentage conditions are exact byte ratios,
/// false whenever the corresponding total is zero.
pub open spec fn spec_ram_recs(r: RamInfo) -> Seq<Seq<char>> {
    (if r.total_ram > 0 && (r.used_ram as int) * 100 > 85 * (r.total_ram as int) {
        seq!["🔴 RAM: Uso acima de 85%. Considere adicionar mais memória"@]
    } else {
        Seq::empty()
    }) + (if r.total_ram < 4 * GIB {
        seq!["🟡 RAM: Memória insuficiente para sistemas modernos"@]
    } else {
        Seq::empty()
    }) + (if r.total_swap > 0 && (r.used_swap as int) * 100 > 50 * (r.total_swap as int) {
        seq!["🔴 SWAP: Uso excessivo de memória virtual. Otimize a RAM"@]
    } else {
        Seq::empty()
    })
}

/// Warnings of one volume: nearly full (above 90 %, named with its
/// usage), a bottleneck warning for a rotational disk on a machine below
/// 7.00 points, and low free space (under 10 decimal GB).
pub open spec fn spec_disk_recs_one(d: DiskInfo, overall: int) -> Seq<Seq<char>> {
    (if d.total_space > 0 && (d.used_space as int) * 100 > 90 * (d.total_space as int) {
        seq![
            "🔴 DISCO "@ + d.name@ + ": Capacidade quase esgotada ("@ + spec_tenths_str(
                spec_usage_tenths(d.used_space, d.total_space) as nat,
            ) + "%)"@,
        ]
    } else {
        Seq::empty()
    }) + (if spec_str_contains(d.disk_type@, "HDD"@) && overall < 700 {
        seq!["🟡 DISCO "@ + d.name@ + ": HDD pode estar limitando performance"@]
    } else {
        Seq::empty()
    }) + (if d.available_space < 10 * GB {
        seq!["🔴 DISCO "@ + d.name@ + ": Menos de 10GB livres"@]
    } else {
        Seq::empty()
    })
}

/// Warnings of the first `k` volumes, in order.
pub open spec fn spec_disk_recs(disks: Seq<DiskInfo>, k: int, overall: int) -> Seq<Seq<char>>
    decreases k,
{
    if k <= 0 {
        Seq::empty()
    } else {
        spec_disk_recs(disks, k - 1, overall) + spec_disk_recs_one(disks[k - 1], overall)
    }
}

/// The whole recommendation list for the given snapshots and overall
/// score in hundredths of a point.
pub open spec fn spec_recommendations(
    cpu: CpuInfo,
    ram: RamInfo,
    disks: Seq<DiskInfo>,
    overall: int,
) -> Seq<Seq<char>> {
    seq![spec_general_message(overall)] + spec_cpu_recs(cpu) + spec_ram_recs(ram)
        + spec_disk_recs(disks, disks.len() as int, overall) + seq![
        spec_closing_message(spec_category(overall)),
    ]
}

fn push_msg(recs: &mut Vec<String>, msg: &str)
    ensures
        seq_views(final(recs)@) == seq_views(old(recs)@).push(msg@),
{
    recs.push(String::from_str(msg));
    proof {
        assert(seq_views(recs@) =~= seq_views(old(recs)@).push(msg@));
    }
}

fn push_string(recs: &mut Vec<String>, msg: String)
    ensures
        seq_views(final(recs)@) == seq_views(old(recs)@).push(msg@),
{
    proof {
        assert(seq_views(old(recs)@.push(msg)) =~= seq_views(old(recs)@).push(msg@));
    }
    recs.push(msg);
}

/// The exact band test `used/total * 100 > threshold`, false whenever
/// `total` is zero.
fn usage_above(used: u64, total: u64, threshold: u32) -> (r: bool)
    ensures
        r == (total > 0 && (used as int) * 100 > (threshold as int) * (total as int)),
{
    if total == 0 {
        return false;
    }
    let t: u128 = threshold as u128;
    let tot: u128 = total as u128;
    proof {
        assert(t * tot <= 0xffff_ffffu128 * 0xffff_ffff_ffff_ffffu128) by (nonlinear_arith)
            requires
                t <= 0xffff_ffffu128,
                tot <= 0xffff_ffff_ffff_ffffu128,
        ;
    }
    (used as u128) * 100 > t * tot
}

/// The ordered recommendation list for the snapshots and the overall
/// score in hundredths of a point.
pub fn generate_recommendations(
    cpu: &CpuInfo,
    ram: &RamInfo,
    disks: &[DiskInfo],
    overall_centi: u32,
) -> (r: Vec<String>)
    ensures
        seq_views(r@) == spec_recommendations(*cpu, *ram, disks@, overall_centi as int),
{
    let mut recs: Vec<String> = Vec::new();

    let general: &str = if overall_centi < 300 {
        "🛑 CONSIDERE DESCARTE: A máquina está em estado crítico"
    } else if overall_centi < 500 {
        "⚠️ MANUTENÇÃO URGENTE: A máquina requer intervenção imediata"
    } else if overall_centi < 700 {
        "🔶 USO COM PRECAUÇÃO: Monitore o desempenho regularmente"
    } else {
        "✅ BOM ESTADO: A máquina está adequada para uso normal"
    };
    push_msg(&mut recs, general);
    proof {
        assert(seq_views(recs@) =~= seq![spec_general_message(overall_centi as int)]);
    }

    if cpu.cpu_usage_tenths > 800 {
        push_msg(&mut recs, "🔴 CPU: Uso muito alto. Verifique processos desnecessários");
    }
    if cpu.number_cpus < 2 {
        push_msg(&mut recs, "🟡 CPU: Apenas 1 núcleo detectado. Limitação para multitarefa");
    }
    proof {
        assert(seq_views(recs@) =~= seq![spec_general_message(overall_centi as int)]
            + spec_cpu_recs(*cpu));
    }

    if usage_above(ram.used_ram, ram.total_ram, 85) {
        push_msg(&mut recs, "🔴 RAM: Uso acima de 85%. Considere adicionar mais memória");
    }
    if ram.total_ram < 4 * GIB {
        push_msg(&mut recs, "🟡 RAM: Memória insuficiente para sistemas modernos");
    }
    if usage_above(ram.used_swap, ram.total_swap, 50) {
        push_msg(&mut recs, "🔴 SWAP: Uso excessivo de memória virtual. Otimize a RAM");
    }
    proof {
        assert(seq_views(recs@) =~= seq![spec_general_message(overall_centi as int)]
            + spec_cpu_recs(*cpu) + spec_ram_recs(*ram));
    }

    let ghost head: Seq<Seq<char>> = seq![spec_general_message(overall_centi as int)]
        + spec_cpu_recs(*cpu) + spec_ram_recs(*ram);
    let mut i: usize = 0;
    while i < disks.len()
        invariant
            i <= disks@.len(),
            seq_views(recs@) == head + spec_disk_recs(disks@, i as int, overall_centi as int),
        decreases disks@.len() - i,
    {
        let d = &disks[i];
        if usage_above(d.used_space, d.total_space, 90) {
            let mut m = String::from_str("🔴 DISCO ");
            m.append(d.name.as_str());
            m.append(": Capacidade quase esgotada (");
            let pct = d.usage_tenths();
            let pct_str = tenths_string(pct);
            m.append(pct_str.as_str());
            m.append("%)");
            push_string(&mut recs, m);
        }
        if str_contains(d.disk_type.as_str(), "HDD") && overall_centi < 700 {
            let mut m = String::from_str("🟡 DISCO ");
            m.append(d.name.as_str());
            m.append(": HDD pode estar limitando performance");
            push_string(&mut recs, m);
        }
        if d.available_space < 10 * GB {
            let mut m = String::from_str("🔴 DISCO ");
            m.append(d.name.as_str());
            m.append(": Menos de 10GB livres");
            push_string(&mut recs, m);
        }
        proof {
            assert(seq_views(recs@) =~= head + (spec_disk_recs(
                disks@,
                i as int,
                overall_centi as int,
            ) + spec_disk_recs_one(disks@[i as int], overall_centi as int)));
        }
        i += 1;
    }

    let closing: &str = match determine_category(overall_centi) {
        PerformanceCategory::Descarte => "📋 Ação recomendada: Substituir equipamento",
        PerformanceCategory::Manutencao => "📋 Ação recomendada: Manutenção técnica urgente",
        PerformanceCategory::Precaucao => "📋 Ação recomendada: Monitoramento contínuo",
        PerformanceCategory::BomEstado => "📋 Ação recomendada: Manutenção preventiva regular",
    };
    push_msg(&mut recs, closing);
    proof {
        assert(seq_views(recs@) =~= spec_recommendations(
            *cpu,
            *ram,
            disks@,
            overall_centi as int,
        ));
    }
    recs
}

} // verus!
