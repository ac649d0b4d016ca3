use sysmon::{
    cpu_bar, cpu_bars, derive_frame, disk_lines, disk_usage, memory_summary, order_by_usage_desc,
    process_row, process_rows, DiskSample, Level, MetricsSnapshot, ProcessSample,
};

const GIB: u64 = 1 << 30;
const MIB: u64 = 1 << 20;

fn proc(pid: u32, cpu: u32, mem: u64) -> ProcessSample {
    ProcessSample { pid, name: format!("p{}", pid), cpu_usage: cpu, memory_bytes: mem }
}

#[test]
fn memory_level_bands() {
    assert_eq!(memory_summary(100, 0, 100).level, Level::Normal);
    assert_eq!(memory_summary(100, 49, 51).level, Level::Normal);
    assert_eq!(memory_summary(100, 50, 50).level, Level::Warning);
    assert_eq!(memory_summary(100, 79, 21).level, Level::Warning);
    assert_eq!(memory_summary(100, 80, 20).level, Level::Critical);
    assert_eq!(memory_summary(100, 100, 0).level, Level::Critical);
}

#[test]
fn memory_percent_and_gib() {
    let m = memory_summary(16 * GIB, 4 * GIB, 12 * GIB);
    assert_eq!(m.total_gib_hundredths, 1600);
    assert_eq!(m.used_gib_hundredths, 400);
    assert_eq!(m.available_gib_hundredths, 1200);
    assert_eq!(m.used_percent_tenths, 250);
    assert_eq!(m.level, Level::Normal);
    // one third, in tenths of a percent, rounded
    assert_eq!(memory_summary(3, 1, 2).used_percent_tenths, 333);
    // two thirds rounds up
    assert_eq!(memory_summary(3, 2, 1).used_percent_tenths, 667);
    assert_eq!(memory_summary(3, 2, 1).level, Level::Warning);
}

#[test]
fn memory_of_empty_total() {
    let m = memory_summary(0, 0, 0);
    assert_eq!(m.used_percent_tenths, 0);
    assert_eq!(m.level, Level::Critical);
}

#[test]
fn disk_of_no_capacity_shows_zero() {
    let d = disk_usage(0, 0);
    assert_eq!(d.used_percent_tenths, 0);
    assert_eq!(d.used_bytes, 0);
    assert_eq!(d.level, Level::Normal);
    assert_eq!(disk_usage(0, 5).used_percent_tenths, 0);
}

#[test]
fn disk_level_bands() {
    assert_eq!(disk_usage(100, 25).level, Level::Normal);
    assert_eq!(disk_usage(100, 24).level, Level::Warning);
    assert_eq!(disk_usage(100, 10).level, Level::Warning);
    assert_eq!(disk_usage(100, 9).level, Level::Critical);
}

#[test]
fn disk_figures() {
    let d = disk_usage(100 * GIB, 25 * GIB);
    assert_eq!(d.used_bytes, 75 * GIB);
    assert_eq!(d.used_gib_tenths, 750);
    assert_eq!(d.total_gib_tenths, 1000);
    assert_eq!(d.used_percent_tenths, 750);
    // more available than total counts as nothing in use
    assert_eq!(disk_usage(10, 20).used_bytes, 0);
}

#[test]
fn only_three_disks_are_shown() {
    let disks: Vec<DiskSample> = (0..5u64)
        .map(|i| DiskSample { name: format!("sd{}", i), total_bytes: 100, available_bytes: i * 10 })
        .collect();
    let lines = disk_lines(&disks);
    assert_eq!(lines.len(), 3);
    assert_eq!(lines[0].used_percent_tenths, 1000);
    assert_eq!(lines[1].used_percent_tenths, 900);
    assert_eq!(lines[2].used_percent_tenths, 800);
    assert_eq!(disk_lines(&disks[..1].to_vec()).len(), 1);
}

#[test]
fn cpu_bar_at_forty_five_percent() {
    let b = cpu_bar(4500);
    assert_eq!(b.filled, 5);
    assert_eq!(b.empty, 5);
    assert_eq!(b.level, Level::Warning);
}

#[test]
fn cpu_bar_rounding_and_ends() {
    assert_eq!(cpu_bar(4499).filled, 4);
    assert_eq!(cpu_bar(0).filled, 0);
    assert_eq!(cpu_bar(0).empty, 10);
    assert_eq!(cpu_bar(10000).filled, 10);
    assert_eq!(cpu_bar(10000).empty, 0);
    assert_eq!(cpu_bar(2999).level, Level::Normal);
    assert_eq!(cpu_bar(3000).level, Level::Warning);
    assert_eq!(cpu_bar(6999).level, Level::Warning);
    assert_eq!(cpu_bar(7000).level, Level::Critical);
    let bars = cpu_bars(&vec![4500, 9500]);
    assert_eq!(bars.len(), 2);
    assert_eq!(bars[1].filled, 10);
}

#[test]
fn processes_sorted_by_usage() {
    let procs = vec![proc(1, 500, 0), proc(2, 9990, 0), proc(3, 5000, 0), proc(4, 10, 0)];
    let rows = process_rows(&procs);
    let cpus: Vec<u32> = rows.iter().map(|r| r.raw_cpu).collect();
    assert_eq!(cpus, vec![9990, 5000, 500, 10]);
    let pids: Vec<u32> = rows.iter().map(|r| r.pid).collect();
    assert_eq!(pids, vec![2, 3, 1, 4]);
    assert_eq!(order_by_usage_desc(&vec![500, 9990, 5000, 10]), vec![1, 2, 0, 3]);
}

#[test]
fn cap_is_for_display_only() {
    let procs = vec![proc(1, 10000, 0), proc(2, 35000, 0), proc(3, 12000, 0)];
    let rows = process_rows(&procs);
    let pids: Vec<u32> = rows.iter().map(|r| r.pid).collect();
    assert_eq!(pids, vec![2, 3, 1]);
    assert!(rows.iter().all(|r| r.shown_cpu == 10000));
    assert_eq!(rows[0].raw_cpu, 35000);
    assert_eq!(rows[0].cpu_level, Level::Critical);
}

#[test]
fn equal_usages_keep_sampled_order() {
    let procs = vec![proc(7, 100, 0), proc(8, 300, 0), proc(9, 100, 0), proc(10, 300, 0)];
    let pids: Vec<u32> = process_rows(&procs).iter().map(|r| r.pid).collect();
    assert_eq!(pids, vec![8, 10, 7, 9]);
}

#[test]
fn top_twenty_only() {
    let procs: Vec<ProcessSample> = (0..25u32).map(|i| proc(i, i * 100, 0)).collect();
    let rows = process_rows(&procs);
    assert_eq!(rows.len(), 20);
    assert_eq!(rows[0].pid, 24);
    assert_eq!(rows[19].pid, 5);
    assert!(process_rows(&Vec::new()).is_empty());
}

#[test]
fn process_levels() {
    let levels = |cpu: u32| process_row(&proc(1, cpu, 0), 0).cpu_level;
    assert_eq!(levels(8001), Level::Critical);
    assert_eq!(levels(8000), Level::Warning);
    assert_eq!(levels(5000), Level::Normal);
    assert_eq!(levels(2000), Level::Info);
    assert_eq!(levels(500), Level::Muted);
    let mem = |bytes: u64| process_row(&proc(1, 0, bytes), 0).memory_level;
    assert_eq!(mem(1000 * MIB + 1), Level::Critical);
    assert_eq!(mem(1000 * MIB), Level::Warning);
    assert_eq!(mem(500 * MIB), Level::Normal);
    assert_eq!(mem(100 * MIB), Level::Muted);
    assert_eq!(process_row(&proc(1, 0, 3 * MIB / 2), 0).memory_mib_tenths, 15);
}

#[test]
fn frame_from_snapshot() {
    let snap = MetricsSnapshot {
        total_memory: 8 * GIB,
        used_memory: 7 * GIB,
        available_memory: GIB,
        cpu_usages: vec![4500, 100],
        disks: vec![DiskSample { name: "root".to_string(), total_bytes: 0, available_bytes: 0 }],
        processes: vec![proc(1, 10, MIB), proc(2, 20, MIB)],
    };
    let f = derive_frame(&snap);
    assert_eq!(f.memory.used_percent_tenths, 875);
    assert_eq!(f.memory.level, Level::Critical);
    assert_eq!(f.disks.len(), 1);
    assert_eq!(f.disks[0].used_percent_tenths, 0);
    assert_eq!(f.cpu_bars[0].filled, 5);
    assert_eq!(f.cpu_bars[1].filled, 0);
    assert_eq!(f.processes[0].pid, 2);
}
