use vstd::prelude::*;

use crate::metrics::{
    cpu_bar, cpu_bar_of, disk_usage, disk_usage_of, memory_summary, memory_summary_of, CpuBar,
    DiskUsage, MemorySummary,
};
use crate::processes::{is_process_table, process_rows, ProcessRow, ProcessSample};

verus! {

/// Disks shown, taken from the front of the sampled list.
pub const DISKS_SHOWN: usize = 3;

/// One disk as sampled.
#[derive(Clone, Debug)]
pub struct DiskSample {
    pub name: String,
    pub total_bytes: u64,
    pub available_bytes: u64,
}

/// The host metrics that one frame is drawn from.
#[derive(Clone, Debug)]
pub struct MetricsSnapshot {
    pub total_memory: u64,
    pub used_memory: u64,
    pub available_memory: u64,
    /// Usage of each core in hundredths of a percent, each at most 10000.
    pub cpu_usages: Vec<u32>,
    pub disks: Vec<DiskSample>,
    pub processes: Vec<ProcessSample>,
}

/// Everything a frame shows, derived from one snapshot.
#[derive(Clone, Debug)]
pub struct DisplayFrame {
    pub memory: MemorySummary,
    pub disks: Vec<DiskUsage>,
    pub cpu_bars: Vec<CpuBar>,
    pub processes: Vec<ProcessRow>,
}

/// Whether every core usage lies in `0..=100%`.
pub open spec fn usages_in_range(usages: Seq<u32>) -> bool {
    forall|i: int| 0 <= i < usages.len() ==> usages[i] <= 10000
}

/// Disk lines for the first `DISKS_SHOWN` disks, in sampled order.
pub fn disk_lines(disks: &Vec<DiskSample>) -> (r: Vec<DiskUsage>)
    ensures
        r@.len() == if disks@.len() < DISKS_SHOWN {
            disks@.len()
        } else {
            DISKS_SHOWN as nat
        },
        forall|i: int|
            0 <= i < r@.len() ==> r@[i] == disk_usage_of(
                disks@[i].total_bytes,
                disks@[i].available_bytes,
            ),
{
    let count = if disks.len() < DISKS_SHOWN {
        disks.len()
    } else {
        DISKS_SHOWN
    };
    let mut out: Vec<DiskUsage> = Vec::new();
    let mut i: usize = 0;
    while i < count
        invariant
            count <= disks@.len(),
            i <= count,
            out@.len() == i,
            forall|j: int|
                0 <= j < i ==> out@[j] == disk_usage_of(
                    disks@[j].total_bytes,
                    disks@[j].available_bytes,
                ),
        decreases count - i,
    {
        out.push(disk_usage(disks[i].total_bytes, disks[i].available_bytes));
        i = i + 1;
    }
    out
}

/// One bar per core, in core order.
pub fn cpu_bars(usages: &Vec<u32>) -> (r: Vec<CpuBar>)
    requires
        usages_in_range(usages@),
    ensures
        r@.len() == usages@.len(),
        forall|i: int| 0 <= i < r@.len() ==> r@[i] == cpu_bar_of(usages@[i]),
{
    let mut out: Vec<CpuBar> = Vec::new();
    let mut i: usize = 0;
    while i < usages.len()
        invariant
            usages_in_range(usages@),
            i <= usages@.len(),
            out@.len() == i,
            forall|j: int| 0 <= j < i ==> out@[j] == cpu_bar_of(usages@[j]),
        decreases usages@.len() - i,
    {
        out.push(cpu_bar(usages[i]));
        i = i + 1;
    }
    out
}

/// Derives the whole frame from a snapshot.
pub fn derive_frame(s: &MetricsSnapshot) -> (r: DisplayFrame)
    requires
        usages_in_range(s.cpu_usages@),
    ensures
        r.memory == memory_summary_of(s.total_memory, s.used_memory, s.available_memory),
        r.disks@.len() == if s.disks@.len() < DISKS_SHOWN {
            s.disks@.len()
        } else {
            DISKS_SHOWN as nat
        },
        forall|i: int|
            0 <= i < r.disks@.len() ==> r.disks@[i] == disk_usage_of(
                s.disks@[i].total_bytes,
                s.disks@[i].available_bytes,
            ),
        r.cpu_bars@.len() == s.cpu_usages@.len(),
        forall|i: int| 0 <= i < r.cpu_bars@.len() ==> r.cpu_bars@[i] == cpu_bar_of(s.cpu_usages@[i]),
        is_process_table(s.processes@, r.processes@),
{
    DisplayFrame {
        memory: memory_summary(s.total_memory, s.used_memory, s.available_memory),
        disks: disk_lines(&s.disks),
        cpu_bars: cpu_bars(&s.cpu_usages),
        processes: process_rows(&s.processes),
    }
}

} // verus!
