use vstd::prelude::*;

use crate::enumerate::{
    list_processes, may_be_truncated, populated_ids, EnumerationFailure, RawListing,
    INITIAL_CAPACITY, MAX_CAPACITY,
};

verus! {

/// Why the working set of one process was not trimmed.
#[derive(Clone, Copy, Debug, PartialEq, Eq, Structural)]
pub enum TrimFailure {
    /// No handle to the process could be had, with this error code.
    HandleDenied { code: u32 },
    /// The OS rejected the trim on the opened handle, with this error code.
    TrimRejected { code: u32 },
}

/// What became of one trim attempt.
#[derive(Clone, Copy, Debug, PartialEq, Eq, Structural)]
pub enum TrimOutcome {
    Success,
    Failure(TrimFailure),
}

/// The outcome of trimming one process.
#[derive(Clone, Copy, Debug, PartialEq, Eq, Structural)]
pub struct TrimRecord {
    pub pid: u32,
    pub outcome: TrimOutcome,
}

/// Whether a process is trimmed in a pass made by process `self_pid`: the
/// idle process (identifier 0) and the caller itself are left alone.
pub open spec fn trim_target(pid: u32, self_pid: u32) -> bool {
    pid != 0 && pid != self_pid
}

/// The identifiers of `pids` that a pass made by `self_pid` trims, in order.
pub open spec fn targets_of(pids: Seq<u32>, self_pid: u32) -> Seq<u32> {
    pids.filter(|p: u32| trim_target(p, self_pid))
}

/// The identifiers of `pids` that a pass leaves alone, in order.
pub open spec fn excluded_of(pids: Seq<u32>, self_pid: u32) -> Seq<u32> {
    pids.filter(|p: u32| !trim_target(p, self_pid))
}

/// `records` holds, in order, one record for each of `targets`, each with the
/// outcome of a call of `trim` on that identifier.
pub open spec fn records_follow<F: Fn(u32) -> TrimOutcome>(
    trim: F,
    targets: Seq<u32>,
    records: Seq<TrimRecord>,
) -> bool {
    &&& records.len() == targets.len()
    &&& forall|i: int|
        0 <= i < records.len() ==> #[trigger] records[i].pid == targets[i] && trim.ensures(
            (targets[i],),
            records[i].outcome,
        )
}

/// Whether a pass made by process `self_pid` trims process `pid`.
pub fn is_trim_target(pid: u32, self_pid: u32) -> (r: bool)
    ensures
        r == trim_target(pid, self_pid),
{
    pid != 0 && pid != self_pid
}

/// The identifiers of `pids` that a pass made by `self_pid` trims, in order.
pub fn trim_targets(pids: &Vec<u32>, self_pid: u32) -> (r: Vec<u32>)
    ensures
        r@ == targets_of(pids@, self_pid),
{
    let mut r: Vec<u32> = Vec::new();
    let mut i: usize = 0;
    while i < pids.len()
        invariant
            i <= pids@.len(),
            r@ == targets_of(pids@.take(i as int), self_pid),
        decreases pids@.len() - i,
    {
        let pid = pids[i];
        if is_trim_target(pid, self_pid) {
            r.push(pid);
        }
        proof {
            let next = pids@.take(i + 1);
            assert(next.drop_last() =~= pids@.take(i as int));
            assert(next.last() == pid);
            reveal_with_fuel(Seq::filter, 1);
        }
        i = i + 1;
    }
    assert(pids@.take(pids@.len() as int) =~= pids@);
    r
}

/// Trims every process of `pids` but the idle process and the caller, in
/// order, one attempt each. A failed attempt stops nothing: every target gets
/// its attempt and its record. `trim` is called on targets only, so never on
/// the idle process or the caller.
pub fn trim_all<F: Fn(u32) -> TrimOutcome>(pids: &Vec<u32>, self_pid: u32, trim: F) -> (r: Vec<
    TrimRecord,
>)
    requires
        forall|p: u32| targets_of(pids@, self_pid).contains(p) ==> #[trigger] trim.requires((p,)),
    ensures
        records_follow(trim, targets_of(pids@, self_pid), r@),
{
    let targets = trim_targets(pids, self_pid);
    let mut r: Vec<TrimRecord> = Vec::with_capacity(targets.len());
    let mut i: usize = 0;
    while i < targets.len()
        invariant
            i <= targets@.len(),
            targets@ == targets_of(pids@, self_pid),
            forall|p: u32| targets@.contains(p) ==> #[trigger] trim.requires((p,)),
            r@.len() == i,
            forall|j: int|
                0 <= j < i ==> #[trigger] r@[j].pid == targets@[j] && trim.ensures(
                    (targets@[j],),
                    r@[j].outcome,
                ),
        decreases targets@.len() - i,
    {
        let pid = targets[i];
        assert(targets@.contains(targets@[i as int]));
        let outcome = trim(pid);
        r.push(TrimRecord { pid, outcome });
        i = i + 1;
    }
    r
}

/// One trimming pass made by process `self_pid`: lists the processes through
/// `query` (as `list_processes` does) and trims each target through `trim`
/// (as `trim_all` does). A failed listing is returned at once, before any
/// trim; otherwise the records follow the listing's targets in order. `trim`
/// is called only on the targets of a listing that `query` returned.
pub fn optimize_all<Q: Fn(usize) -> Result<RawListing, u32>, F: Fn(u32) -> TrimOutcome>(
    self_pid: u32,
    query: Q,
    trim: F,
) -> (r: Result<Vec<TrimRecord>, EnumerationFailure>)
    requires
        forall|c: usize| INITIAL_CAPACITY <= c <= MAX_CAPACITY ==> #[trigger] query.requires((c,)),
        forall|p: u32|
            (exists|c: usize, l: RawListing|
                #[trigger] query.ensures((c,), Ok(l)) && targets_of(populated_ids(l), self_pid).contains(
                    p,
                )) ==> #[trigger] trim.requires((p,)),
    ensures
        r is Err ==> exists|c: usize, code: u32|
            #[trigger] query.ensures((c,), Err(code)) && r->Err_0.code == code,
        r is Ok ==> exists|c: usize, l: RawListing|
            #[trigger] query.ensures((c,), Ok(l)) && (!may_be_truncated(l) || c == MAX_CAPACITY)
                && records_follow(trim, targets_of(populated_ids(l), self_pid), r->Ok_0@),
{
    match list_processes(query) {
        Err(e) => Err(e),
        Ok(pids) => {
            proof {
                let (c, l) = choose|c: usize, l: RawListing|
                    #[trigger] query.ensures((c,), Ok(l)) && pids@ == populated_ids(l) && (
                    !may_be_truncated(l) || c == MAX_CAPACITY);
                assert forall|p: u32| targets_of(pids@, self_pid).contains(p) implies #[trigger] trim.requires(
                    (p,),
                ) by {
                    assert(query.ensures((c,), Ok(l)) && targets_of(populated_ids(l), self_pid).contains(p));
                }
            }
            let records = trim_all(&pids, self_pid, trim);
            Ok(records)
        },
    }
}

/// The identifiers that a pass trims are exactly those listed that are neither
/// the idle process nor the caller: no listed process other than these two is
/// left out, and neither of the two is ever trimmed.
pub proof fn lemma_targets_exclude_exactly_idle_and_self(pids: Seq<u32>, self_pid: u32)
    ensures
        forall|p: u32|
            #[trigger] targets_of(pids, self_pid).contains(p) <==> (pids.contains(p) && p != 0
                && p != self_pid),
        forall|i: int|
            0 <= i < targets_of(pids, self_pid).len() ==> #[trigger] targets_of(pids, self_pid)[i]
                != 0 && targets_of(pids, self_pid)[i] != self_pid,
{
    broadcast use vstd::seq_lib::group_filter_ensures;
    let pred = |p: u32| trim_target(p, self_pid);
    let t = targets_of(pids, self_pid);
    assert forall|p: u32| #[trigger] t.contains(p) <==> (pids.contains(p) && p != 0 && p != self_pid) by {
        if t.contains(p) {
            let i = choose|i: int| 0 <= i < t.len() && t[i] == p;
            assert(pred(t[i]));
            lemma_filter_subset(pids, pred, i);
        }
        if pids.contains(p) && p != 0 && p != self_pid {
            let i = choose|i: int| 0 <= i < pids.len() && pids[i] == p;
            assert(pred(pids[i]));
        }
    }
}

/// A failed trim does not end the batch: after a failure at position `i`,
/// every later target still has its own record, made by a call of `trim` on it.
pub proof fn lemma_failure_does_not_stop_the_batch<F: Fn(u32) -> TrimOutcome>(
    trim: F,
    targets: Seq<u32>,
    records: Seq<TrimRecord>,
    i: int,
)
    requires
        records_follow(trim, targets, records),
        0 <= i < records.len(),
        records[i].outcome is Failure,
    ensures
        forall|j: int|
            i < j < targets.len() ==> #[trigger] records[j].pid == targets[j] && trim.ensures(
                (targets[j],),
                records[j].outcome,
            ),
{
}

/// Every element of a filtered sequence is an element of the sequence.
proof fn lemma_filter_subset(s: Seq<u32>, pred: spec_fn(u32) -> bool, i: int)
    requires
        0 <= i < s.filter(pred).len(),
    ensures
        s.contains(s.filter(pred)[i]),
    decreases s.len(),
{
    reveal_with_fuel(Seq::filter, 1);
    if s.len() > 0 {
        let sub = s.drop_last().filter(pred);
        if i < sub.len() {
            lemma_filter_subset(s.drop_last(), pred, i);
            let j = choose|j: int| 0 <= j < s.drop_last().len() && s.drop_last()[j] == sub[i];
            assert(s[j] == s.filter(pred)[i]);
        } else {
            assert(s.filter(pred)[i] == s.last());
            assert(s[s.len() - 1] == s.last());
        }
    }
}

/// A pass makes one attempt for each listed process, less those it
/// excludes: the targets number the listed count minus the excluded count.
pub proof fn lemma_target_count(pids: Seq<u32>, self_pid: u32)
    ensures
        targets_of(pids, self_pid).len() == pids.len() - excluded_of(pids, self_pid).len(),
    decreases pids.len(),
{
    reveal_with_fuel(Seq::filter, 1);
    if pids.len() > 0 {
        lemma_target_count(pids.drop_last(), self_pid);
    }
}

} // verus!
