use hardware_diagnostic::calculate_cpu_score;
use hardware_diagnostic::calculate_disk_score;
use hardware_diagnostic::calculate_performance_score;
use hardware_diagnostic::calculate_ram_score;
use hardware_diagnostic::determine_category;
use hardware_diagnostic::disk_composite;
use hardware_diagnostic::overall_score;
use hardware_diagnostic::CpuInfo;
use hardware_diagnostic::DiskInfo;
use hardware_diagnostic::PerformanceCategory;
use hardware_diagnostic::RamInfo;

fn cpu(cores: usize, usage_tenths: u32, mhz: u64) -> CpuInfo {
    CpuInfo {
        number_cpus: cores,
        cpu_usage_tenths: usage_tenths,
        frequency: mhz,
        name: "Test CPU".to_string(),
        physical_cores: Some(cores),
    }
}

fn ram(total: u64, used: u64, total_swap: u64, used_swap: u64) -> RamInfo {
    RamInfo {
        total_ram: total,
        used_ram: used,
        free_ram: total.saturating_sub(used),
        total_swap,
        used_swap,
    }
}

fn disk(name: &str, total: u64, available: u64, kind: &str) -> DiskInfo {
    DiskInfo {
        name: name.to_string(),
        mount_point: "/".to_string(),
        total_space: total,
        available_space: available,
        used_space: total - available,
        file_system: "ext4".to_string(),
        disk_type: kind.to_string(),
    }
}

const GIB: u64 = 1_073_741_824;
const GB: u64 = 1_000_000_000;

#[test]
fn test_cpu_score_example() {
    // 8 cores -> 8.0, 20 % usage -> 10.0, 3500 MHz -> 8.0:
    // 8.0*0.4 + 10.0*0.4 + 8.0*0.2 = 8.8 points exactly.
    let c = cpu(8, 200, 3500);
    assert_eq!(calculate_cpu_score(&c), 880);
}

#[test]
fn test_ram_score_example() {
    // 8 GiB total, 85 % used (75-90 band -> 4.0), no swap -> neutral 8.0,
    // capacity 8 GiB (8-16 band -> 8.0): 4.0*0.5 + 8.0*0.3 + 8.0*0.2 = 6.0.
    let total = 8 * GIB;
    let used = total / 100 * 85;
    let r = ram(total, used, 0, 0);
    assert_eq!(calculate_ram_score(&r), 600);
}

#[test]
fn test_disk_score_example() {
    // One disk, 96 % used (-> 1.0), kind HDD (-> 6.0), 5 GB free (-> 1.0):
    // 1.0*0.5 + 6.0*0.3 + 1.0*0.2 = 2.5; the mean of one disk is itself.
    let d = disk("sda", 125 * GB, 5 * GB, "HDD");
    assert_eq!(disk_composite(&d), 250);
    assert_eq!(calculate_disk_score(&[d]), 250);
}

#[test]
fn test_empty_disk_list_neutral() {
    assert_eq!(calculate_disk_score(&[]), 500);
}

#[test]
fn test_zero_total_ram() {
    // A degenerate snapshot must not panic: 0 % usage -> 10.0,
    // no swap -> 8.0, capacity under 4 GiB -> 3.0: score 8.0.
    let r = ram(0, 0, 0, 0);
    assert_eq!(r.ram_usage_tenths(), 0);
    assert_eq!(calculate_ram_score(&r), 800);
}

#[test]
fn test_category_boundaries() {
    assert_eq!(determine_category(0), PerformanceCategory::Descarte);
    assert_eq!(determine_category(299), PerformanceCategory::Descarte);
    assert_eq!(determine_category(300), PerformanceCategory::Manutencao);
    assert_eq!(determine_category(499), PerformanceCategory::Manutencao);
    assert_eq!(determine_category(500), PerformanceCategory::Precaucao);
    assert_eq!(determine_category(699), PerformanceCategory::Precaucao);
    assert_eq!(determine_category(700), PerformanceCategory::BomEstado);
    assert_eq!(determine_category(1000), PerformanceCategory::BomEstado);
}

#[test]
fn test_category_discard_example() {
    // An overall score of 2.5 falls below the 3.0 boundary.
    assert_eq!(determine_category(250), PerformanceCategory::Descarte);
}

#[test]
fn test_overall_weighting() {
    // 8.0*0.4 + 6.0*0.3 + 2.5*0.3 = 5.75.
    assert_eq!(overall_score(800, 600, 250), 575);
}

#[test]
fn test_weak_machine_discarded() {
    // 1 core (2.0), 90 % load (1.0), 1500 MHz (3.0) -> cpu 1.8.
    let c = cpu(1, 900, 1500);
    // 100 % RAM used (1.0), swap 80 % used (1.0), 2 GiB total (3.0) -> ram 1.4.
    let r = ram(2 * GIB, 2 * GIB, GIB, GIB / 10 * 8);
    // 96 % used (1.0), HDD (6.0), 4 GB free (1.0) -> disk 2.5.
    let d = vec![disk("sda", 100 * GB, 4 * GB, "HDD")];
    let score = calculate_performance_score(&c, &r, &d);
    assert_eq!(score.cpu_score, 180);
    assert_eq!(score.ram_score, 140);
    assert_eq!(score.disk_score, 250);
    // 1.8*0.4 + 1.4*0.3 + 2.5*0.3 = 1.89.
    assert_eq!(score.overall_score, 189);
    assert_eq!(score.category, PerformanceCategory::Descarte);
    let recs = &score.recommendations;
    assert!(!recs.is_empty());
    assert_eq!(
        recs.first().unwrap(),
        "🛑 CONSIDERE DESCARTE: A máquina está em estado crítico"
    );
    assert_eq!(
        recs.last().unwrap(),
        "📋 Ação recomendada: Substituir equipamento"
    );
}

#[test]
fn test_healthy_machine() {
    // 8 cores (8.0), 20 % load (10.0), 4200 MHz (10.0) -> cpu 9.2.
    let c = cpu(8, 200, 4200);
    // 30 % RAM used (10.0), no swap (8.0), 32 GiB (10.0) -> ram 9.4.
    let r = ram(32 * GIB, 32 * GIB / 10 * 3, 0, 0);
    // 10 % used (10.0), SSD (10.0), plenty free (10.0) -> disk 10.0.
    let d = vec![disk("nvme0n1", 1000 * GB, 900 * GB, "SSD")];
    let score = calculate_performance_score(&c, &r, &d);
    assert_eq!(score.cpu_score, 920);
    assert_eq!(score.ram_score, 940);
    assert_eq!(score.disk_score, 1000);
    // 9.2*0.4 + 9.4*0.3 + 10.0*0.3 = 9.5.
    assert_eq!(score.overall_score, 950);
    assert_eq!(score.category, PerformanceCategory::BomEstado);
    let recs = &score.recommendations;
    // A healthy snapshot still gets the general and the closing message.
    assert_eq!(recs.len(), 2);
    assert_eq!(
        recs.first().unwrap(),
        "✅ BOM ESTADO: A máquina está adequada para uso normal"
    );
    assert_eq!(
        recs.last().unwrap(),
        "📋 Ação recomendada: Manutenção preventiva regular"
    );
}

#[test]
fn test_idempotent() {
    let c = cpu(4, 550, 2400);
    let r = ram(16 * GIB, 9 * GIB, 2 * GIB, GIB / 5);
    let d = vec![
        disk("sda", 500 * GB, 120 * GB, "HDD"),
        disk("sdb", 250 * GB, 30 * GB, "SSD"),
    ];
    let a = calculate_performance_score(&c, &r, &d);
    let b = calculate_performance_score(&c, &r, &d);
    assert_eq!(a.overall_score, b.overall_score);
    assert_eq!(a.cpu_score, b.cpu_score);
    assert_eq!(a.ram_score, b.ram_score);
    assert_eq!(a.disk_score, b.disk_score);
    assert_eq!(a.category, b.category);
    assert_eq!(a.recommendations, b.recommendations);
}

#[test]
fn test_scores_in_range() {
    let snapshots = [
        (cpu(0, 0, 0), ram(0, 0, 0, 0), Vec::new()),
        (
            cpu(64, 1000, 6000),
            ram(u64::MAX, u64::MAX, u64::MAX, u64::MAX),
            vec![disk("sda", u64::MAX, 0, "Unknown")],
        ),
        (
            cpu(2, 700, 2500),
            ram(4 * GIB, 3 * GIB, GIB, GIB / 2),
            vec![disk("sda", 100 * GB, 60 * GB, "SSD")],
        ),
    ];
    for (c, r, d) in snapshots {
        let score = calculate_performance_score(&c, &r, &d);
        assert!(score.cpu_score <= 1000);
        assert!(score.ram_score <= 1000);
        assert!(score.disk_score <= 1000);
        assert!(score.overall_score <= 1000);
    }
}

#[test]
fn test_cpu_warnings() {
    // 85 % load and a single core both warn.
    let c = cpu(1, 850, 3000);
    let r = ram(16 * GIB, 4 * GIB, 0, 0);
    let score = calculate_performance_score(&c, &r, &[]);
    let recs = &score.recommendations;
    assert!(recs.contains(&"🔴 CPU: Uso muito alto. Verifique processos desnecessários".to_string()));
    assert!(recs.contains(&"🟡 CPU: Apenas 1 núcleo detectado. Limitação para multitarefa".to_string()));
}

#[test]
fn test_ram_warnings() {
    // 90 % used of 2 GiB with swap 60 % used: all three memory warnings.
    let r = ram(2 * GIB, 2 * GIB / 10 * 9, GIB, GIB / 10 * 6);
    let c = cpu(8, 100, 3500);
    let score = calculate_performance_score(&c, &r, &[]);
    let recs = &score.recommendations;
    assert!(recs.contains(&"🔴 RAM: Uso acima de 85%. Considere adicionar mais memória".to_string()));
    assert!(recs.contains(&"🟡 RAM: Memória insuficiente para sistemas modernos".to_string()));
    assert!(recs.contains(&"🔴 SWAP: Uso excessivo de memória virtual. Otimize a RAM".to_string()));
}

#[test]
fn test_disk_warnings() {
    // 96 % used, an HDD on a weak machine, and under 10 GB free.
    let c = cpu(1, 900, 1500);
    let r = ram(2 * GIB, 2 * GIB, 0, 0);
    let d = vec![disk("sda1", 200 * GB, 8 * GB, "HDD")];
    let score = calculate_performance_score(&c, &r, &d);
    assert!(score.overall_score < 700);
    let recs = &score.recommendations;
    assert!(recs.contains(&"🔴 DISCO sda1: Capacidade quase esgotada (96.0%)".to_string()));
    assert!(recs.contains(&"🟡 DISCO sda1: HDD pode estar limitando performance".to_string()));
    assert!(recs.contains(&"🔴 DISCO sda1: Menos de 10GB livres".to_string()));
}

#[test]
fn test_no_warnings_when_healthy() {
    let c = cpu(8, 200, 4200);
    let r = ram(32 * GIB, 8 * GIB, 8 * GIB, 0);
    let d = vec![disk("nvme0n1", 1000 * GB, 800 * GB, "NVMe")];
    let score = calculate_performance_score(&c, &r, &d);
    assert_eq!(score.recommendations.len(), 2);
}

#[test]
fn test_disk_type_bands() {
    // 10 % used (10.0) and over 100 GB free (10.0) held fixed; only the
    // kind factor varies: SSD 10.0, HDD 6.0, anything else 8.0.
    let base = |kind: &str| disk("sda", 1000 * GB, 900 * GB, kind);
    assert_eq!(disk_composite(&base("SSD")), 1000);
    assert_eq!(disk_composite(&base("NVMe")), 1000);
    assert_eq!(disk_composite(&base("HDD")), 880);
    assert_eq!(disk_composite(&base("Unknown(42)")), 940);
    // The kind test is a substring match, as the collector's labels vary.
    assert_eq!(disk_composite(&base("Ext HDD enclosure")), 880);
}

#[test]
fn test_disk_score_mean_of_disks() {
    // Composites 1000 and 880 average to 940.
    let d = vec![
        disk("a", 1000 * GB, 900 * GB, "SSD"),
        disk("b", 1000 * GB, 900 * GB, "HDD"),
    ];
    assert_eq!(calculate_disk_score(&d), 940);
}

#[test]
fn test_zero_total_disk() {
    // A volume with no reported capacity counts as 0 % used.
    let d = disk("sda", 0, 0, "SSD");
    assert_eq!(d.usage_tenths(), 0);
    // 10.0*0.5 + 10.0*0.3 + 1.0*0.2 = 8.2 (no free space at all).
    assert_eq!(disk_composite(&d), 820);
}

#[test]
fn test_swap_bands() {
    let base = 16 * GIB;
    // No swap: neutral 8.0 -> 10.0*0.5 + 8.0*0.3 + 10.0*0.2 = 9.4.
    assert_eq!(calculate_ram_score(&ram(base, GIB, 0, 0)), 940);
    // 5 % swap used: 10.0 -> 10.0.
    assert_eq!(calculate_ram_score(&ram(base, GIB, GIB, GIB / 20)), 1000);
    // 40 % swap used: 4.0 -> 0.4*3 lower than 10.0: 5.0+1.2+2.0 = 8.2.
    assert_eq!(calculate_ram_score(&ram(base, GIB, GIB, GIB / 10 * 4)), 820);
}
