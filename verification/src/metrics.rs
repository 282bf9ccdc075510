//! Deriving an integer hardware snapshot from one consistent counter reading.

use vstd::prelude::*;

verus! {

/// One consistent reading of the machine's counters, taken under a single
/// critical section: the aggregate CPU busy percentage (floored to a whole
/// percent), the number of cores, memory in use and in total, and the bytes
/// moved on all network interfaces (received plus transmitted) since the
/// previous reading.
#[derive(Clone, Copy, PartialEq, Eq, Structural, Debug)]
pub struct CounterSet {
    pub cpu_busy_pct: u64,
    pub core_count: u64,
    pub used_memory: u64,
    pub total_memory: u64,
    pub net_bytes: u64,
}

impl CounterSet {
    /// A counter reading is consistent when the aggregate busy percentage does
    /// not exceed one hundred percent per core and no more memory is in use
    /// than exists.
    pub open spec fn wf(self) -> bool {
        &&& self.cpu_busy_pct <= 100 * self.core_count
        &&& self.used_memory <= self.total_memory
    }
}

/// One immutable measurement triple for one sampling interval. The network
/// figure is kept in hundredths of a KiB, so that it always carries exactly
/// two fractional digits.
#[derive(Clone, Copy, PartialEq, Eq, Structural, Debug)]
pub struct HardwareSnapshot {
    pub cpu_pct: u8,
    pub mem_pct: u8,
    pub net_centi_kib: u64,
}

impl HardwareSnapshot {
    /// Both percentages lie in `[0, 100]`.
    pub open spec fn wf(self) -> bool {
        self.cpu_pct <= 100 && self.mem_pct <= 100
    }
}

/// Truncating per-core CPU percentage; zero cores yield zero rather than a
/// division fault.
pub open spec fn spec_cpu_pct(busy: int, cores: int) -> int {
    if cores == 0 {
        0
    } else {
        busy / cores
    }
}

/// Truncating memory percentage; zero total memory yields zero rather than a
/// division fault.
pub open spec fn spec_mem_pct(used: int, total: int) -> int {
    if total == 0 {
        0
    } else {
        used * 100 / total
    }
}

/// Bytes over one interval turned into hundredths of a KiB, rounded half away
/// from zero (for a non-negative amount, half up).
pub open spec fn spec_net_centi_kib(bytes: int) -> int {
    (bytes * 100 + 512) / 1024
}

/// The snapshot that a consistent counter reading denotes.
pub open spec fn spec_snapshot(c: CounterSet) -> HardwareSnapshot {
    HardwareSnapshot {
        cpu_pct: spec_cpu_pct(c.cpu_busy_pct as int, c.core_count as int) as u8,
        mem_pct: spec_mem_pct(c.used_memory as int, c.total_memory as int) as u8,
        net_centi_kib: spec_net_centi_kib(c.net_bytes as int) as u64,
    }
}

/// Law (bounded percentages): for every consistent counter reading, the
/// derived percentages lie in `[0, 100]` and the network figure is
/// non-negative.
pub proof fn lemma_snapshot_in_range(c: CounterSet)
    requires
        c.wf(),
    ensures
        spec_snapshot(c).wf(),
        spec_net_centi_kib(c.net_bytes as int) >= 0,
{
    if c.core_count != 0 {
        assert(0 <= c.cpu_busy_pct as int / c.core_count as int <= 100) by (nonlinear_arith)
            requires
                c.cpu_busy_pct <= 100 * c.core_count,
                c.core_count > 0,
        ;
    }
    if c.total_memory != 0 {
        assert(0 <= (c.used_memory as int) * 100 / (c.total_memory as int) <= 100)
            by (nonlinear_arith)
            requires
                c.used_memory <= c.total_memory,
                c.total_memory > 0,
        ;
    }
}

/// Law (no division fault): a zero divisor yields a zero percentage by
/// definition, for any counter reading.
pub proof fn lemma_zero_divisor_yields_zero(c: CounterSet)
    ensures
        c.core_count == 0 ==> spec_snapshot(c).cpu_pct == 0,
        c.total_memory == 0 ==> spec_snapshot(c).mem_pct == 0,
{
}

/// Pure derivation of a snapshot from the current counters: no I/O, both
/// percentages truncated, the network figure rounded half away from zero, and
/// a zero divisor in either percentage yielding zero instead of a fault.
pub fn snapshot(c: &CounterSet) -> (s: HardwareSnapshot)
    requires
        c.wf(),
    ensures
        s == spec_snapshot(*c),
        s.wf(),
{
    let cpu: u64 = if c.core_count == 0 {
        0
    } else {
        assert(c.cpu_busy_pct / c.core_count <= 100) by (nonlinear_arith)
            requires
                c.cpu_busy_pct <= 100 * c.core_count,
                c.core_count > 0,
        ;
        c.cpu_busy_pct / c.core_count
    };
    let mem: u64 = if c.total_memory == 0 {
        0
    } else {
        assert((c.used_memory as int) * 100 / (c.total_memory as int) <= 100) by (nonlinear_arith)
            requires
                c.used_memory <= c.total_memory,
                c.total_memory > 0,
        ;
        (((c.used_memory as u128) * 100) / (c.total_memory as u128)) as u64
    };
    let net: u64 = (((c.net_bytes as u128) * 100 + 512) / 1024) as u64;
    HardwareSnapshot { cpu_pct: cpu as u8, mem_pct: mem as u8, net_centi_kib: net }
}

} // verus!
