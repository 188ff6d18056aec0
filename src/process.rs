//! The process registry: one record per live process id, rebuilt on every
//! full scan from the details that could be fetched.

use vstd::prelude::*;

use std::collections::HashMap;

use crate::delta::{clamped_delta, CounterPair};

verus! {

broadcast use vstd::std_specs::hash::group_hash_axioms;

/// A process id, as the operating system gives it.
pub type Pid = i32;

/// One fresh reading of a process, as a provider returns it.
#[derive(Clone, Debug)]
pub struct ProcessDetail {
    pub pid: Pid,
    /// Parent process, by id only.
    pub parent: Option<Pid>,
    pub cmd: String,
    pub start_time: u64,
    /// Cumulative CPU ticks.
    pub cpu_ticks: u64,
    /// Resident memory, in kilobytes.
    pub memory: u64,
}

/// The registry's record of one process: the latest detail and two
/// generations of its counters.
#[derive(Clone, Debug)]
pub struct Process {
    pub pid: Pid,
    pub parent: Option<Pid>,
    pub cmd: String,
    pub start_time: u64,
    pub cpu_ticks: CounterPair,
    pub memory: CounterPair,
}

/// What the registry holds for `pid`, if anything.
pub open spec fn known(m: Map<Pid, Process>, pid: Pid) -> Option<Process> {
    if m.contains_key(pid) {
        Some(m[pid])
    } else {
        None
    }
}

/// The record made from a fresh detail: a process seen before keeps its
/// current counters as the previous generation; a new one starts with both
/// generations equal.
pub open spec fn merged(prior: Option<Process>, d: ProcessDetail) -> Process {
    Process {
        pid: d.pid,
        parent: d.parent,
        cmd: d.cmd,
        start_time: d.start_time,
        cpu_ticks: match prior {
            Some(p) => p.cpu_ticks.advanced(d.cpu_ticks),
            None => CounterPair { previous: d.cpu_ticks, current: d.cpu_ticks },
        },
        memory: match prior {
            Some(p) => p.memory.advanced(d.memory),
            None => CounterPair { previous: d.memory, current: d.memory },
        },
    }
}

/// The registry after a full scan of `old` that fetched the details `ds`:
/// exactly the processes with a detail, each merged with what `old` knew of
/// it (the last detail of a pid counts).
pub open spec fn scanned(old: Map<Pid, Process>, ds: Seq<ProcessDetail>) -> Map<Pid, Process>
    decreases ds.len(),
{
    if ds.len() == 0 {
        Map::empty()
    } else {
        scanned(old, ds.drop_last()).insert(ds.last().pid, merged(known(old, ds.last().pid), ds.last()))
    }
}

impl Process {
    /// CPU ticks spent between the two most recent readings.
    pub fn cpu_ticks_delta(&self) -> (r: u64)
        ensures
            r == clamped_delta(self.cpu_ticks.previous as int, self.cpu_ticks.current as int),
    {
        self.cpu_ticks.rate()
    }
}

fn merge_detail(old: &HashMap<Pid, Process>, d: &ProcessDetail) -> (r: Process)
    ensures
        r == merged(known(old@, d.pid), *d),
{
    let (cpu_ticks, memory) = match old.get(&d.pid) {
        Some(p) => (
            CounterPair { previous: p.cpu_ticks.current, current: d.cpu_ticks },
            CounterPair { previous: p.memory.current, current: d.memory },
        ),
        None => (CounterPair::first(d.cpu_ticks), CounterPair::first(d.memory)),
    };
    Process {
        pid: d.pid,
        parent: d.parent,
        cmd: d.cmd.clone(),
        start_time: d.start_time,
        cpu_ticks,
        memory,
    }
}

/// Merges the details of one full scan into the registry. Every process with
/// a detail is inserted or updated; every other one is evicted, since the
/// scan did not see it alive.
pub fn refresh_process_list(list: &mut HashMap<Pid, Process>, details: &Vec<ProcessDetail>)
    ensures
        final(list)@ == scanned(old(list)@, details@),
{
    let mut fresh: HashMap<Pid, Process> = HashMap::new();
    let mut i: usize = 0;
    while i < details.len()
        invariant
            i <= details@.len(),
            fresh@ == scanned(list@, details@.take(i as int)),
        decreases details@.len() - i,
    {
        let d = &details[i];
        let p = merge_detail(list, d);
        assert(details@.take(i + 1).drop_last() == details@.take(i as int));
        fresh.insert(d.pid, p);
        i = i + 1;
    }
    assert(details@.take(details@.len() as int) == details@);
    *list = fresh;
}

/// Whether a fetch asked for `pid` brought back a detail of that process.
pub open spec fn fetched_for(pid: Pid, detail: Option<ProcessDetail>) -> bool {
    detail matches Some(d) && d.pid == pid
}

/// Merges the detail fetched for `pid` into the registry, leaving every other
/// record alone. Returns whether a detail of `pid` was fetched; without one
/// (none, or one of another process) the registry is unchanged.
pub fn refresh_one(list: &mut HashMap<Pid, Process>, pid: Pid, detail: Option<ProcessDetail>) -> (r: bool)
    ensures
        r == fetched_for(pid, detail),
        r ==> final(list)@ == old(list)@.insert(pid, merged(known(old(list)@, pid), detail->0)),
        !r ==> final(list)@ == old(list)@,
{
    match detail {
        Some(d) => {
            if d.pid != pid {
                return false;
            }
            let p = merge_detail(list, &d);
            list.insert(pid, p);
            true
        },
        None => false,
    }
}

/// A scan holds a pid exactly when one of its details has that pid, and then
/// the record is merged from the last such detail.
pub proof fn lemma_scanned_record(old: Map<Pid, Process>, ds: Seq<ProcessDetail>, pid: Pid)
    ensures
        scanned(old, ds).contains_key(pid) <==> exists|i: int| 0 <= i < ds.len() && #[trigger] ds[i].pid == pid,
        scanned(old, ds).contains_key(pid) ==> exists|i: int|
            0 <= i < ds.len() && #[trigger] ds[i].pid == pid && (forall|j: int|
                i < j < ds.len() ==> #[trigger] ds[j].pid != pid) && scanned(old, ds)[pid] == merged(
                known(old, pid),
                ds[i],
            ),
    decreases ds.len(),
{
    if ds.len() > 0 {
        let rest = ds.drop_last();
        lemma_scanned_record(old, rest, pid);
        if ds.last().pid == pid {
            let i = ds.len() - 1;
            assert(ds[i].pid == pid);
        } else {
            if exists|i: int| 0 <= i < ds.len() && #[trigger] ds[i].pid == pid {
                let i = choose|i: int| 0 <= i < ds.len() && #[trigger] ds[i].pid == pid;
                assert(rest[i].pid == pid);
            }
            if scanned(old, ds).contains_key(pid) {
                let i = choose|i: int|
                    0 <= i < rest.len() && #[trigger] rest[i].pid == pid && (forall|j: int|
                        i < j < rest.len() ==> #[trigger] rest[j].pid != pid) && scanned(
                        old,
                        rest,
                    )[pid] == merged(known(old, pid), rest[i]);
                assert(ds[i].pid == pid);
                assert forall|j: int| i < j < ds.len() implies #[trigger] ds[j].pid != pid by {
                    if j < rest.len() {
                        assert(rest[j].pid != pid);
                    }
                }
            }
        }
    }
}

/// A process that no detail of a scan mentions is not in the registry after
/// that scan, whatever the registry held before.
pub proof fn lemma_unlisted_process_evicted(old: Map<Pid, Process>, ds: Seq<ProcessDetail>, pid: Pid)
    requires
        forall|i: int| 0 <= i < ds.len() ==> #[trigger] ds[i].pid != pid,
    ensures
        !scanned(old, ds).contains_key(pid),
{
    lemma_scanned_record(old, ds, pid);
}

/// In one scan where the detail of `a` was fetched (once) and that of `b`
/// was not, `a` is updated from its detail and its previous record, and `b`
/// is absent afterwards, whether or not it was known before.
pub proof fn lemma_scan_partial_failure(
    old: Map<Pid, Process>,
    ds: Seq<ProcessDetail>,
    ia: int,
    b: Pid,
)
    requires
        0 <= ia < ds.len(),
        forall|j: int| 0 <= j < ds.len() && j != ia ==> #[trigger] ds[j].pid != ds[ia].pid,
        forall|j: int| 0 <= j < ds.len() ==> #[trigger] ds[j].pid != b,
    ensures
        scanned(old, ds).contains_key(ds[ia].pid),
        scanned(old, ds)[ds[ia].pid] == merged(known(old, ds[ia].pid), ds[ia]),
        !scanned(old, ds).contains_key(b),
{
    let a = ds[ia].pid;
    lemma_scanned_record(old, ds, a);
    lemma_scanned_record(old, ds, b);
    let i = choose|i: int|
        0 <= i < ds.len() && #[trigger] ds[i].pid == a && (forall|j: int|
            i < j < ds.len() ==> #[trigger] ds[j].pid != a) && scanned(old, ds)[a] == merged(
            known(old, a),
            ds[i],
        );
    assert(i == ia);
}

/// Scanning twice with the same details leaves every process with no CPU
/// ticks and no memory change between its two generations.
pub proof fn lemma_scan_idempotent(old: Map<Pid, Process>, ds: Seq<ProcessDetail>, pid: Pid)
    requires
        scanned(scanned(old, ds), ds).contains_key(pid),
    ensures
        ({
            let p = scanned(scanned(old, ds), ds)[pid];
            p.cpu_ticks.previous == p.cpu_ticks.current && p.memory.previous == p.memory.current
        }),
{
    let once = scanned(old, ds);
    lemma_scanned_record(once, ds, pid);
    lemma_scanned_record(old, ds, pid);
    let i2 = choose|i: int|
        0 <= i < ds.len() && #[trigger] ds[i].pid == pid && (forall|j: int|
            i < j < ds.len() ==> #[trigger] ds[j].pid != pid) && scanned(once, ds)[pid] == merged(
            known(once, pid),
            ds[i],
        );
    let i1 = choose|i: int|
        0 <= i < ds.len() && #[trigger] ds[i].pid == pid && (forall|j: int|
            i < j < ds.len() ==> #[trigger] ds[j].pid != pid) && scanned(old, ds)[pid] == merged(
            known(old, pid),
            ds[i],
        );
    if i1 < i2 {
        assert(ds[i2].pid != pid);
    }
    if i2 < i1 {
        assert(ds[i1].pid != pid);
    }
}

} // verus!
