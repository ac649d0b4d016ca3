use vstd::prelude::*;

use crate::level::Level;
use crate::metrics::{round_div, rounded_div};

verus! {

/// Rows shown in the process table.
pub const TOP_PROCESSES: usize = 20;

/// Bytes in one MiB.
pub const MIB: u64 = 1048576;

/// The displayed CPU figure of a process: its raw usage, in hundredths of a
/// percent, capped at 100%.
pub open spec fn capped(usage: u32) -> u32 {
    if usage <= 10000 {
        usage
    } else {
        10000
    }
}

/// `order` lists the positions of `keys` from the highest key to the lowest.
pub open spec fn sorted_desc(keys: Seq<u32>, order: Seq<usize>) -> bool {
    forall|i: int, j: int|
        0 <= i < j < order.len() ==> keys[order[i] as int] >= keys[order[j] as int]
}

/// Positions of equal keys keep the order they have in `keys`.
pub open spec fn ties_in_input_order(keys: Seq<u32>, order: Seq<usize>) -> bool {
    forall|i: int, j: int|
        0 <= i < j < order.len() && keys[order[i] as int] == keys[order[j] as int]
            ==> order[i] < order[j]
}

/// `order` holds each of `0..n` exactly once.
pub open spec fn is_index_permutation(order: Seq<usize>, n: nat) -> bool {
    &&& order.len() == n
    &&& forall|i: int| 0 <= i < order.len() ==> order[i] < n
    &&& forall|i: int, j: int| 0 <= i < j < order.len() ==> order[i] != order[j]
    &&& forall|x: usize| x < n ==> #[trigger] order.contains(x)
}

/// Process CPU colour, on the displayed (capped) usage in hundredths of a
/// percent: above 80% critical, above 50% warning, above 20% normal, above 5%
/// info, else muted.
pub open spec fn process_cpu_level(shown: nat) -> Level {
    if shown > 8000 {
        Level::Critical
    } else if shown > 5000 {
        Level::Warning
    } else if shown > 2000 {
        Level::Normal
    } else if shown > 500 {
        Level::Info
    } else {
        Level::Muted
    }
}

/// Process memory colour: above 1000 MiB critical, above 500 MiB warning,
/// above 100 MiB normal, else muted.
pub open spec fn process_memory_level(bytes: nat) -> Level {
    if bytes > 1000 * MIB {
        Level::Critical
    } else if bytes > 500 * MIB {
        Level::Warning
    } else if bytes > 100 * MIB {
        Level::Normal
    } else {
        Level::Muted
    }
}

/// A byte count as a rounded count of tenths of a MiB.
pub open spec fn mib_tenths(bytes: nat) -> nat {
    round_div(10 * bytes, MIB as nat)
}

/// Positions of `keys` ordered by key, highest first; equal keys keep their
/// order of appearance.
pub fn order_by_usage_desc(keys: &Vec<u32>) -> (r: Vec<usize>)
    ensures
        is_index_permutation(r@, keys@.len()),
        sorted_desc(keys@, r@),
        ties_in_input_order(keys@, r@),
{
    let mut order: Vec<usize> = Vec::new();
    let n = keys.len();
    let mut k: usize = 0;
    while k < n
        invariant
            n == keys@.len(),
            k <= n,
            order@.len() == k,
            forall|i: int| 0 <= i < order@.len() ==> order@[i] < k,
            forall|i: int, j: int| 0 <= i < j < order@.len() ==> order@[i] != order@[j],
            forall|x: usize| x < k ==> #[trigger] order@.contains(x),
            sorted_desc(keys@, order@),
            ties_in_input_order(keys@, order@),
        decreases n - k,
    {
        let key = keys[k];
        let mut p: usize = 0;
        while p < order.len() && keys[order[p]] >= key
            invariant
                n == keys@.len(),
                k < n,
                order@.len() == k,
                p <= order@.len(),
                forall|i: int| 0 <= i < order@.len() ==> order@[i] < k,
                forall|i: int| 0 <= i < p ==> keys@[order@[i] as int] >= key,
            decreases order@.len() - p,
        {
            p = p + 1;
        }
        let ghost before = order@;
        assert forall|i: int| p <= i < before.len() implies keys@[before[i] as int] < key by {
            if p < before.len() {
                assert(keys@[before[p as int] as int] < key);
                assert(keys@[before[p as int] as int] >= keys@[before[i] as int]);
            }
        }
        order.insert(p, k);
        assert forall|x: usize| x < k + 1 implies #[trigger] order@.contains(x) by {
            if x == k {
                assert(order@[p as int] == x);
            } else {
                assert(before.contains(x));
                let i0 = choose|i: int| 0 <= i < before.len() && before[i] == x;
                if i0 < p {
                    assert(order@[i0] == x);
                } else {
                    assert(order@[i0 + 1] == x);
                }
            }
        }
        k = k + 1;
    }
    order
}


/// One entry of the host's process table, as sampled.
#[derive(Clone, Debug)]
pub struct ProcessSample {
    pub pid: u32,
    pub name: String,
    /// Raw CPU usage in hundredths of a percent; above 10000 on several cores.
    pub cpu_usage: u32,
    pub memory_bytes: u64,
}

/// One row of the process table. `index` is the process's position in the
/// sampled list.
#[derive(Clone, Copy, Debug, PartialEq, Eq, Structural)]
pub struct ProcessRow {
    pub index: usize,
    pub pid: u32,
    pub raw_cpu: u32,
    pub shown_cpu: u32,
    pub cpu_level: Level,
    pub memory_mib_tenths: u64,
    pub memory_level: Level,
}

/// The sort keys of a process list: raw CPU usage of each.
pub open spec fn usage_keys(procs: Seq<ProcessSample>) -> Seq<u32> {
    procs.map_values(|p: ProcessSample| p.cpu_usage)
}

/// The row drawn for the process at `index`.
pub open spec fn row_of(p: ProcessSample, index: usize) -> ProcessRow {
    ProcessRow {
        index,
        pid: p.pid,
        raw_cpu: p.cpu_usage,
        shown_cpu: capped(p.cpu_usage),
        cpu_level: process_cpu_level(capped(p.cpu_usage) as nat),
        memory_mib_tenths: mib_tenths(p.memory_bytes as nat) as u64,
        memory_level: process_memory_level(p.memory_bytes as nat),
    }
}

/// Whether some row shows the process at `x`.
pub open spec fn shown(rows: Seq<ProcessRow>, x: usize) -> bool {
    exists|i: int| 0 <= i < rows.len() && rows[i].index == x
}

/// `rows` is the process table of `procs`: the `TOP_PROCESSES` processes of
/// highest raw CPU usage, highest first, equal usages in sampled order, each
/// shown with its usage capped at 100%.
pub open spec fn is_process_table(procs: Seq<ProcessSample>, rows: Seq<ProcessRow>) -> bool {
    &&& rows.len() == if procs.len() < TOP_PROCESSES {
        procs.len()
    } else {
        TOP_PROCESSES as nat
    }
    &&& forall|i: int|
        0 <= i < rows.len() ==> rows[i].index < procs.len() && rows[i] == row_of(
            procs[rows[i].index as int],
            rows[i].index,
        )
    &&& forall|i: int, j: int| 0 <= i < j < rows.len() ==> rows[i].index != rows[j].index
    &&& forall|i: int, j: int| 0 <= i < j < rows.len() ==> rows[i].raw_cpu >= rows[j].raw_cpu
    &&& forall|i: int, j: int|
        0 <= i < j < rows.len() && rows[i].raw_cpu == rows[j].raw_cpu ==> rows[i].index
            < rows[j].index
    &&& forall|x: usize, i: int|
        x < procs.len() && !shown(rows, x) && 0 <= i < rows.len() ==> procs[x as int].cpu_usage
            < rows[i].raw_cpu || (procs[x as int].cpu_usage == rows[i].raw_cpu && rows[i].index
            < x)
    &&& forall|i: int| 0 <= i < rows.len() ==> rows[i].shown_cpu <= 10000
}

fn to_mib_tenths(bytes: u64) -> (r: u64)
    ensures
        r as nat == mib_tenths(bytes as nat),
{
    let r = rounded_div(10 * (bytes as u128), MIB as u128);
    assert(r <= u64::MAX) by (nonlinear_arith)
        requires
            r as nat == (2 * (10 * bytes as nat) + MIB as nat) / (2 * MIB as nat),
            bytes <= u64::MAX,
    ;
    r as u64
}

/// Builds the row of the process at `index`.
pub fn process_row(p: &ProcessSample, index: usize) -> (r: ProcessRow)
    ensures
        r == row_of(*p, index),
{
    let usage = p.cpu_usage;
    let shown = if usage <= 10000 {
        usage
    } else {
        10000
    };
    let cpu_level = if shown > 8000 {
        Level::Critical
    } else if shown > 5000 {
        Level::Warning
    } else if shown > 2000 {
        Level::Normal
    } else if shown > 500 {
        Level::Info
    } else {
        Level::Muted
    };
    let bytes = p.memory_bytes;
    let memory_level = if bytes > 1000 * MIB {
        Level::Critical
    } else if bytes > 500 * MIB {
        Level::Warning
    } else if bytes > 100 * MIB {
        Level::Normal
    } else {
        Level::Muted
    };
    ProcessRow {
        index,
        pid: p.pid,
        raw_cpu: usage,
        shown_cpu: shown,
        cpu_level,
        memory_mib_tenths: to_mib_tenths(bytes),
        memory_level,
    }
}

/// The process table: the `TOP_PROCESSES` processes of highest raw CPU
/// usage, highest first, equal usages in sampled order. The 100% cap applies
/// to the shown figure only; the order goes by the raw usage.
pub fn process_rows(procs: &Vec<ProcessSample>) -> (r: Vec<ProcessRow>)
    ensures
        is_process_table(procs@, r@),
{
    let n = procs.len();
    let mut keys: Vec<u32> = Vec::new();
    let mut k: usize = 0;
    while k < n
        invariant
            n == procs@.len(),
            k <= n,
            keys@ == usage_keys(procs@).take(k as int),
        decreases n - k,
    {
        keys.push(procs[k].cpu_usage);
        k = k + 1;
        assert(keys@ =~= usage_keys(procs@).take(k as int));
    }
    assert(keys@ =~= usage_keys(procs@));
    let order = order_by_usage_desc(&keys);
    let count = if n < TOP_PROCESSES {
        n
    } else {
        TOP_PROCESSES
    };
    let mut rows: Vec<ProcessRow> = Vec::new();
    let mut i: usize = 0;
    while i < count
        invariant
            n == procs@.len(),
            keys@ == usage_keys(procs@),
            count <= n,
            is_index_permutation(order@, n as nat),
            i <= count,
            rows@.len() == i,
            forall|j: int| 0 <= j < i ==> rows@[j] == row_of(procs@[order@[j] as int], order@[j]),
        decreases count - i,
    {
        let at = order[i];
        let row = process_row(&procs[at], at);
        rows.push(row);
        i = i + 1;
    }
    assert forall|x: usize, i: int|
        x < procs@.len() && !shown(rows@, x) && 0 <= i < rows@.len() implies procs@[x as int].cpu_usage
        < rows@[i].raw_cpu || (procs@[x as int].cpu_usage == rows@[i].raw_cpu && rows@[i].index
        < x) by {
        assert(order@.contains(x));
        let p = choose|p: int| 0 <= p < order@.len() && order@[p] == x;
        if p < count {
            assert(rows@[p].index == x);
        } else {
            assert(keys@[order@[i] as int] >= keys@[order@[p] as int]);
        }
    }
    rows
}


/// Capping is for display only: an order that sorts the raw usages from the
/// highest also sorts the capped figures, and no capped figure exceeds 100%.
/// Sorting on the raw usage therefore never disagrees with what is shown.
pub proof fn lemma_cap_keeps_order(keys: Seq<u32>, order: Seq<usize>)
    requires
        forall|i: int| 0 <= i < order.len() ==> order[i] < keys.len(),
        sorted_desc(keys, order),
    ensures
        sorted_desc(keys.map_values(|u: u32| capped(u)), order),
        forall|i: int| 0 <= i < keys.len() ==> capped(keys[i]) <= 10000,
{
    let shown = keys.map_values(|u: u32| capped(u));
    assert forall|i: int, j: int| 0 <= i < j < order.len() implies shown[order[i] as int]
        >= shown[order[j] as int] by {
        assert(keys[order[i] as int] >= keys[order[j] as int]);
    }
}

} // verus!
