use vstd::prelude::*;

verus! {

/// Percentage of physical memory in use at or above which a pass trims.
pub const THRESHOLD_PERCENT: u64 = 50;

/// Total and available physical memory, in bytes, as the OS reported them.
#[derive(Clone, Copy, Debug, PartialEq, Eq, Structural)]
pub struct MemorySnapshot {
    pub total_physical_bytes: u64,
    pub available_physical_bytes: u64,
}

/// Why no snapshot could be taken.
#[derive(Clone, Copy, Debug, PartialEq, Eq, Structural)]
pub enum ProbeFailure {
    /// The OS rejected the memory query, with this error code.
    QueryRejected { code: u32 },
    /// The OS reported no physical memory at all.
    ZeroTotal,
    /// The OS reported more available memory than installed memory.
    AvailableExceedsTotal,
}

impl MemorySnapshot {
    /// The snapshot can be read as a fraction: memory exists, and no more
    /// of it is available than is installed.
    pub open spec fn wf(self) -> bool {
        0 < self.total_physical_bytes && self.available_physical_bytes <= self.total_physical_bytes
    }

    /// Bytes in use.
    pub open spec fn used(self) -> int {
        self.total_physical_bytes - self.available_physical_bytes
    }

    /// The used fraction is `used() / total_physical_bytes`; this says that it is at
    /// least `THRESHOLD_PERCENT / 100`.
    pub open spec fn at_or_above_threshold(self) -> bool {
        self.used() * 100 >= self.total_physical_bytes * THRESHOLD_PERCENT
    }

    /// The used fraction in thousandths, rounded down.
    pub open spec fn per_mille(self) -> int {
        self.used() * 1000 / (self.total_physical_bytes as int)
    }

    /// Bytes in use.
    pub fn used_bytes(&self) -> (r: u64)
        requires
            self.wf(),
        ensures
            r == self.used(),
    {
        self.total_physical_bytes - self.available_physical_bytes
    }

    /// The used fraction as (numerator, denominator): bytes in use over total bytes.
    pub fn used_fraction(&self) -> (r: (u64, u64))
        requires
            self.wf(),
        ensures
            r.0 == self.used(),
            r.1 == self.total_physical_bytes,
            r.0 <= r.1,
            0 < r.1,
    {
        (self.used_bytes(), self.total_physical_bytes)
    }

    /// The used fraction in thousandths, rounded down (for display).
    pub fn used_per_mille(&self) -> (r: u64)
        requires
            self.wf(),
        ensures
            r == self.per_mille(),
            r <= 1000,
    {
        let used = self.used_bytes() as u128;
        let total = self.total_physical_bytes as u128;
        proof {
            assert(used * 1000 <= total * 1000) by (nonlinear_arith)
                requires used <= total;
            assert(total * 1000 <= 0xffff_ffff_ffff_ffff * 1000) by (nonlinear_arith)
                requires total <= 0xffff_ffff_ffff_ffff;
            assert((used as int) * 1000 / (total as int) <= 1000) by (nonlinear_arith)
                requires used <= total, 0 < total;
        }
        ((used * 1000) / total) as u64
    }

    /// Whether the used fraction is at or above the threshold (ties trim).
    pub fn meets_threshold(&self) -> (r: bool)
        requires
            self.wf(),
        ensures
            r == self.at_or_above_threshold(),
    {
        let used = self.used_bytes() as u128;
        let total = self.total_physical_bytes as u128;
        proof {
            assert(used * 100 <= 0xffff_ffff_ffff_ffff * 100) by (nonlinear_arith)
                requires used <= 0xffff_ffff_ffff_ffff;
            assert(total * (THRESHOLD_PERCENT as u128) <= 0xffff_ffff_ffff_ffff * 100) by (nonlinear_arith)
                requires total <= 0xffff_ffff_ffff_ffff, THRESHOLD_PERCENT <= 100;
        }
        used * 100 >= total * (THRESHOLD_PERCENT as u128)
    }
}

/// What a probe yields for the OS's answer to the memory query: either the
/// reported (total, available) byte counts, or the OS error code.
pub open spec fn measured(status: Result<(u64, u64), u32>) -> Result<MemorySnapshot, ProbeFailure> {
    match status {
        Err(code) => Err(ProbeFailure::QueryRejected { code }),
        Ok((total, available)) => if total == 0 {
            Err(ProbeFailure::ZeroTotal)
        } else if available > total {
            Err(ProbeFailure::AvailableExceedsTotal)
        } else {
            Ok(MemorySnapshot { total_physical_bytes: total, available_physical_bytes: available })
        },
    }
}

/// Turns the OS's answer to the memory query into a snapshot. A zero total is
/// a failure, so no fraction is ever formed over it.
pub fn measure(status: Result<(u64, u64), u32>) -> (r: Result<MemorySnapshot, ProbeFailure>)
    ensures
        r == measured(status),
        r is Ok ==> r->Ok_0.wf(),
{
    match status {
        Err(code) => Err(ProbeFailure::QueryRejected { code }),
        Ok((total, available)) => {
            if total == 0 {
                Err(ProbeFailure::ZeroTotal)
            } else if available > total {
                Err(ProbeFailure::AvailableExceedsTotal)
            } else {
                Ok(MemorySnapshot { total_physical_bytes: total, available_physical_bytes: available })
            }
        },
    }
}

/// For every snapshot with memory in it and no more available than
/// installed, the used fraction `(total - available) / total` lies in [0, 1],
/// and the threshold test says exactly that this fraction is at least one half.
pub proof fn lemma_used_fraction_in_unit_interval(s: MemorySnapshot)
    requires
        s.total_physical_bytes > 0,
        s.available_physical_bytes <= s.total_physical_bytes,
    ensures
        s.used() == s.total_physical_bytes - s.available_physical_bytes,
        0 <= s.used() <= s.total_physical_bytes,
        0 <= s.per_mille() <= 1000,
        s.at_or_above_threshold() <==> 2 * s.used() >= s.total_physical_bytes,
{
    let u = s.used();
    let t = s.total_physical_bytes as int;
    assert(0 <= u * 1000 / t <= 1000) by (nonlinear_arith)
        requires 0 <= u <= t, 0 < t;
}

} // verus!
