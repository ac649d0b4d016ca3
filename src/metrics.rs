use vstd::prelude::*;

use crate::level::Level;

verus! {

/// Number of cells in a per-core CPU bar.
pub const BAR_WIDTH: usize = 10;

/// Bytes in one GiB.
pub const GIB: u64 = 1073741824;

/// `n / d` rounded to the nearest integer, halves rounded up.
pub open spec fn round_div(n: nat, d: nat) -> nat
    recommends
        d > 0,
{
    (2 * n + d) / (2 * d)
}

/// `used / total * 100` as a rounded count of tenths of a percent; zero for an
/// empty total.
pub open spec fn percent_tenths(used: nat, total: nat) -> nat {
    if total == 0 {
        0
    } else {
        round_div(1000 * used, total)
    }
}

/// A byte count as a rounded count of hundredths of a GiB.
pub open spec fn gib_hundredths(bytes: nat) -> nat {
    round_div(100 * bytes, GIB as nat)
}

/// A byte count as a rounded count of tenths of a GiB.
pub open spec fn gib_tenths(bytes: nat) -> nat {
    round_div(10 * bytes, GIB as nat)
}

/// Memory colour: below 50% normal, below 80% warning, else critical, where the
/// percentage is the exact ratio `used / total * 100`.
pub open spec fn memory_level(used: nat, total: nat) -> Level {
    if 100 * used < 50 * total {
        Level::Normal
    } else if 100 * used < 80 * total {
        Level::Warning
    } else {
        Level::Critical
    }
}

/// Disk colour: above 90% critical, above 75% warning, else normal.
pub open spec fn disk_level(used: nat, total: nat) -> Level {
    if 100 * used > 90 * total {
        Level::Critical
    } else if 100 * used > 75 * total {
        Level::Warning
    } else {
        Level::Normal
    }
}

/// Space in use on a disk: total less available, never below zero.
pub open spec fn disk_used(total: nat, available: nat) -> nat {
    if available <= total {
        (total - available) as nat
    } else {
        0
    }
}

/// Per-core CPU colour, on a usage in hundredths of a percent: below 30%
/// normal, below 70% warning, else critical.
pub open spec fn cpu_level(usage: nat) -> Level {
    if usage < 3000 {
        Level::Normal
    } else if usage < 7000 {
        Level::Warning
    } else {
        Level::Critical
    }
}

/// Filled cells of a bar of `BAR_WIDTH` cells for a usage in hundredths of a
/// percent: `round(usage / 100 * 10)`, halves rounded up.
pub open spec fn bar_filled(usage: nat) -> nat {
    (usage + 500) / 1000
}

/// The memory block for the given byte counts.
pub open spec fn memory_summary_of(total: u64, used: u64, available: u64) -> MemorySummary {
    MemorySummary {
        total_gib_hundredths: gib_hundredths(total as nat) as u64,
        used_gib_hundredths: gib_hundredths(used as nat) as u64,
        available_gib_hundredths: gib_hundredths(available as nat) as u64,
        used_percent_tenths: percent_tenths(used as nat, total as nat) as u128,
        level: memory_level(used as nat, total as nat),
    }
}

/// The disk line for the given total and available space.
pub open spec fn disk_usage_of(total: u64, available: u64) -> DiskUsage {
    let used = disk_used(total as nat, available as nat);
    DiskUsage {
        used_bytes: used as u64,
        used_gib_tenths: gib_tenths(used) as u64,
        total_gib_tenths: gib_tenths(total as nat) as u64,
        used_percent_tenths: percent_tenths(used, total as nat) as u64,
        level: disk_level(used, total as nat),
    }
}

/// The bar of a core whose usage is given in hundredths of a percent.
pub open spec fn cpu_bar_of(usage: u32) -> CpuBar {
    CpuBar {
        filled: bar_filled(usage as nat) as usize,
        empty: (BAR_WIDTH - bar_filled(usage as nat)) as usize,
        level: cpu_level(usage as nat),
    }
}

/// `n / d` rounded, halves up, computed without overflow.
pub(crate) fn rounded_div(n: u128, d: u128) -> (r: u128)
    requires
        d > 0,
        n <= u64::MAX as u128 * 2000,
        d <= u64::MAX as u128 * 2,
    ensures
        r as nat == round_div(n as nat, d as nat),
{
    (2 * n + d) / (2 * d)
}

/// Memory figures ready for display.
#[derive(Clone, Copy, Debug, PartialEq, Eq, Structural)]
pub struct MemorySummary {
    pub total_gib_hundredths: u64,
    pub used_gib_hundredths: u64,
    pub available_gib_hundredths: u64,
    pub used_percent_tenths: u128,
    pub level: Level,
}

/// Derives the memory block from byte counts.
pub fn memory_summary(total: u64, used: u64, available: u64) -> (r: MemorySummary)
    ensures
        r.total_gib_hundredths as nat == gib_hundredths(total as nat),
        r.used_gib_hundredths as nat == gib_hundredths(used as nat),
        r.available_gib_hundredths as nat == gib_hundredths(available as nat),
        r.used_percent_tenths as nat == percent_tenths(used as nat, total as nat),
        r.level == memory_level(used as nat, total as nat),
        r == memory_summary_of(total, used, available),
{
    let t = to_gib_hundredths(total);
    let u = to_gib_hundredths(used);
    let a = to_gib_hundredths(available);
    let p = to_percent_tenths(used, total);
    let level = if (used as u128) * 100 < (total as u128) * 50 {
        Level::Normal
    } else if (used as u128) * 100 < (total as u128) * 80 {
        Level::Warning
    } else {
        Level::Critical
    };
    MemorySummary {
        total_gib_hundredths: t,
        used_gib_hundredths: u,
        available_gib_hundredths: a,
        used_percent_tenths: p,
        level,
    }
}

fn to_gib_hundredths(bytes: u64) -> (r: u64)
    ensures
        r as nat == gib_hundredths(bytes as nat),
{
    let r = rounded_div(100 * (bytes as u128), GIB as u128);
    assert(r <= u64::MAX) by (nonlinear_arith)
        requires
            r as nat == (2 * (100 * bytes as nat) + GIB as nat) / (2 * GIB as nat),
            bytes <= u64::MAX,
    ;
    r as u64
}

fn to_gib_tenths(bytes: u64) -> (r: u64)
    ensures
        r as nat == gib_tenths(bytes as nat),
{
    let r = rounded_div(10 * (bytes as u128), GIB as u128);
    assert(r <= u64::MAX) by (nonlinear_arith)
        requires
            r as nat == (2 * (10 * bytes as nat) + GIB as nat) / (2 * GIB as nat),
            bytes <= u64::MAX,
    ;
    r as u64
}

fn to_percent_tenths(used: u64, total: u64) -> (r: u128)
    ensures
        r as nat == percent_tenths(used as nat, total as nat),
        used <= total ==> r <= 1000,
{
    if total == 0 {
        0
    } else {
        let r = rounded_div(1000 * (used as u128), total as u128);
        assert(used <= total ==> r <= 1000) by (nonlinear_arith)
            requires
                r as nat == (2 * (1000 * used as nat) + total as nat) / (2 * total as nat),
                total > 0,
        ;
        r
    }
}


/// One disk line ready for display.
#[derive(Clone, Copy, Debug, PartialEq, Eq, Structural)]
pub struct DiskUsage {
    pub used_bytes: u64,
    pub used_gib_tenths: u64,
    pub total_gib_tenths: u64,
    pub used_percent_tenths: u64,
    pub level: Level,
}

/// Derives a disk line from its total and available space. Space in use is
/// the total less what is available (zero if the disk reports more available
/// than total); a disk of no capacity shows 0%.
pub fn disk_usage(total: u64, available: u64) -> (r: DiskUsage)
    ensures
        r.used_bytes as nat == disk_used(total as nat, available as nat),
        r.used_gib_tenths as nat == gib_tenths(disk_used(total as nat, available as nat)),
        r.total_gib_tenths as nat == gib_tenths(total as nat),
        r.used_percent_tenths as nat == percent_tenths(
            disk_used(total as nat, available as nat),
            total as nat,
        ),
        r.level == disk_level(disk_used(total as nat, available as nat), total as nat),
        r == disk_usage_of(total, available),
{
    let used = total.saturating_sub(available);
    let level = if (used as u128) * 100 > (total as u128) * 90 {
        Level::Critical
    } else if (used as u128) * 100 > (total as u128) * 75 {
        Level::Warning
    } else {
        Level::Normal
    };
    DiskUsage {
        used_bytes: used,
        used_gib_tenths: to_gib_tenths(used),
        total_gib_tenths: to_gib_tenths(total),
        used_percent_tenths: to_percent_tenths(used, total) as u64,
        level,
    }
}

/// One per-core CPU bar: `filled` solid cells followed by `empty` blank ones.
#[derive(Clone, Copy, Debug, PartialEq, Eq, Structural)]
pub struct CpuBar {
    pub filled: usize,
    pub empty: usize,
    pub level: Level,
}

/// Derives the bar of a core whose usage is given in hundredths of a percent.
pub fn cpu_bar(usage: u32) -> (r: CpuBar)
    requires
        usage <= 10000,
    ensures
        r.filled as nat == bar_filled(usage as nat),
        r.filled + r.empty == BAR_WIDTH,
        r.level == cpu_level(usage as nat),
        r == cpu_bar_of(usage),
{
    let filled = ((usage + 500) / 1000) as usize;
    let level = if usage < 3000 {
        Level::Normal
    } else if usage < 7000 {
        Level::Warning
    } else {
        Level::Critical
    };
    CpuBar { filled, empty: BAR_WIDTH - filled, level }
}

/// A disk of no capacity shows 0% in use and the normal colour, whatever it
/// reports as available: no division by zero takes place.
pub proof fn lemma_empty_disk_shows_zero(available: u64)
    ensures
        disk_usage_of(0, available).used_percent_tenths == 0,
        disk_usage_of(0, available).level == Level::Normal,
{
}

} // verus!
