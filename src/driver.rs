use vstd::prelude::*;

use crate::enumerate::{
    may_be_truncated, populated_ids, EnumerationFailure, RawListing, INITIAL_CAPACITY,
    MAX_CAPACITY,
};
use crate::memory::{measure, measured, MemorySnapshot, ProbeFailure};
use crate::trim::{optimize_all, records_follow, targets_of, TrimOutcome, TrimRecord};

verus! {

/// How one run ended.
#[derive(Debug)]
pub enum PassReport {
    /// No snapshot could be taken; nothing was trimmed.
    ProbeFailed(ProbeFailure),
    /// Memory use was below the threshold; nothing was trimmed.
    Skipped(MemorySnapshot),
    /// Memory use was at or above the threshold, and a trimming pass ran.
    Optimized(MemorySnapshot, Result<Vec<TrimRecord>, EnumerationFailure>),
}

/// One run made by process `self_pid`, given the OS's answer to the memory
/// query. When the snapshot shows use at or above the threshold, the
/// processes are listed through `query` and trimmed through `trim`, once;
/// otherwise neither is called (neither may be called on the other paths).
/// Memory is not measured again afterwards.
pub fn run_pass<Q: Fn(usize) -> Result<RawListing, u32>, F: Fn(u32) -> TrimOutcome>(
    status: Result<(u64, u64), u32>,
    self_pid: u32,
    query: Q,
    trim: F,
) -> (r: PassReport)
    requires
        measured(status) is Ok && measured(status)->Ok_0.at_or_above_threshold() ==> {
            &&& forall|c: usize|
                INITIAL_CAPACITY <= c <= MAX_CAPACITY ==> #[trigger] query.requires((c,))
            &&& forall|p: u32|
                (exists|c: usize, l: RawListing|
                    #[trigger] query.ensures((c,), Ok(l)) && targets_of(
                        populated_ids(l),
                        self_pid,
                    ).contains(p)) ==> #[trigger] trim.requires((p,))
        },
    ensures
        measured(status) is Err ==> r == PassReport::ProbeFailed(measured(status)->Err_0),
        measured(status) is Ok && !measured(status)->Ok_0.at_or_above_threshold() ==> r
            == PassReport::Skipped(measured(status)->Ok_0),
        measured(status) is Ok && measured(status)->Ok_0.at_or_above_threshold() ==> {
            &&& r is Optimized
            &&& r->Optimized_0 == measured(status)->Ok_0
            &&& r->Optimized_1 is Err ==> exists|c: usize, code: u32|
                #[trigger] query.ensures((c,), Err(code)) && r->Optimized_1->Err_0.code == code
            &&& r->Optimized_1 is Ok ==> exists|c: usize, l: RawListing|
                #[trigger] query.ensures((c,), Ok(l)) && (!may_be_truncated(l) || c
                    == MAX_CAPACITY) && records_follow(
                    trim,
                    targets_of(populated_ids(l), self_pid),
                    r->Optimized_1->Ok_0@,
                )
        },
{
    match measure(status) {
        Err(e) => PassReport::ProbeFailed(e),
        Ok(snapshot) => {
            if snapshot.meets_threshold() {
                let result = optimize_all(self_pid, query, trim);
                PassReport::Optimized(snapshot, result)
            } else {
                PassReport::Skipped(snapshot)
            }
        },
    }
}

} // verus!
