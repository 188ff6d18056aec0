//! The processor registry: one aggregate entry followed by one entry per
//! logical core, each core holding two generations of tick counters.

use vstd::prelude::*;

use crate::delta::{clamped_delta, usage_fraction, usage_of, USAGE_SCALE};

verus! {

/// Cumulative tick counters of one logical core.
#[derive(Clone, Copy, Debug, PartialEq, Eq, Structural)]
pub struct CpuTicks {
    pub user: u64,
    pub system: u64,
    pub nice: u64,
    pub idle: u64,
}

/// One entry of the processor registry. The entry at position 0 stands for
/// all cores together; its ticks stay zero and its usage is the mean of the
/// cores' usages.
#[derive(Clone, Copy, Debug, PartialEq, Eq, Structural)]
pub struct Processor {
    pub previous: CpuTicks,
    pub current: CpuTicks,
    /// Busy share of the last interval, in units of `1 / USAGE_SCALE`.
    pub usage: u64,
}

pub open spec fn zero_ticks() -> CpuTicks {
    CpuTicks { user: 0, system: 0, nice: 0, idle: 0 }
}

/// Busy ticks (user, system and nice) elapsed between two readings.
pub open spec fn busy_delta(prev: CpuTicks, cur: CpuTicks) -> int {
    clamped_delta(prev.user as int, cur.user as int) + clamped_delta(
        prev.system as int,
        cur.system as int,
    ) + clamped_delta(prev.nice as int, cur.nice as int)
}

/// Idle ticks elapsed between two readings.
pub open spec fn idle_delta(prev: CpuTicks, cur: CpuTicks) -> int {
    clamped_delta(prev.idle as int, cur.idle as int)
}

/// Usage of a core over the interval between two readings.
pub open spec fn core_usage(prev: CpuTicks, cur: CpuTicks) -> int {
    usage_fraction(busy_delta(prev, cur), busy_delta(prev, cur) + idle_delta(prev, cur))
}

pub open spec fn usage_sum(cores: Seq<Processor>) -> int
    decreases cores.len(),
{
    if cores.len() == 0 {
        0
    } else {
        usage_sum(cores.drop_last()) + cores.last().usage
    }
}

/// Mean usage of `cores`, rounded down; zero when there is no core.
pub open spec fn mean_usage(cores: Seq<Processor>) -> int {
    if cores.len() == 0 {
        0
    } else {
        usage_sum(cores) / (cores.len() as int)
    }
}

/// The registry built from the first sample: both generations of every core
/// hold that sample, so every usage starts at zero.
pub open spec fn first_listing(sample: Seq<CpuTicks>, l: Seq<Processor>) -> bool {
    &&& l.len() == sample.len() + 1
    &&& l[0] == Processor { previous: zero_ticks(), current: zero_ticks(), usage: 0 }
    &&& forall|i: int|
        0 <= i < sample.len() ==> #[trigger] l[i + 1] == (Processor {
            previous: sample[i],
            current: sample[i],
            usage: 0,
        })
}

/// The registry after a later sample: each core's current ticks become its
/// previous ones, the sample becomes current, usage is recomputed from the
/// deltas, and the aggregate takes the mean of the new core usages.
pub open spec fn next_listing(old: Seq<Processor>, sample: Seq<CpuTicks>, l: Seq<Processor>) -> bool {
    &&& l.len() == old.len()
    &&& forall|i: int|
        0 <= i < sample.len() ==> #[trigger] l[i + 1] == (Processor {
            previous: old[i + 1].current,
            current: sample[i],
            usage: core_usage(old[i + 1].current, sample[i]) as u64,
        })
    &&& l[0].previous == old[0].previous
    &&& l[0].current == old[0].current
    &&& l[0].usage == mean_usage(l.skip(1))
}

/// The registry `l` after folding `sample` into `old`: built from it when
/// `old` is empty, advanced by it when the core counts agree, unchanged
/// otherwise.
pub open spec fn processors_refreshed(old: Seq<Processor>, sample: Seq<CpuTicks>, l: Seq<Processor>) -> bool {
    &&& old.len() == 0 ==> first_listing(sample, l)
    &&& old.len() == sample.len() + 1 ==> next_listing(old, sample, l)
    &&& old.len() != 0 && old.len() != sample.len() + 1 ==> l == old
}

/// Every usage in the registry lies within `[0, USAGE_SCALE]`.
pub open spec fn usages_bounded(l: Seq<Processor>) -> bool {
    forall|i: int| 0 <= i < l.len() ==> #[trigger] l[i].usage <= USAGE_SCALE
}

impl Processor {
    /// Busy share of the last interval, in units of `1 / USAGE_SCALE`.
    pub fn get_cpu_usage(&self) -> (r: u64)
        ensures
            r == self.usage,
    {
        self.usage
    }
}

fn counter_delta(previous: u64, current: u64) -> (r: u64)
    ensures
        r == clamped_delta(previous as int, current as int),
{
    if current >= previous {
        current - previous
    } else {
        0
    }
}

/// Usage of a core between two readings of its ticks.
pub fn usage_between(prev: &CpuTicks, cur: &CpuTicks) -> (r: u64)
    ensures
        r == core_usage(*prev, *cur),
        r <= USAGE_SCALE,
{
    let busy: u128 = counter_delta(prev.user, cur.user) as u128 + counter_delta(
        prev.system,
        cur.system,
    ) as u128 + counter_delta(prev.nice, cur.nice) as u128;
    let total: u128 = busy + counter_delta(prev.idle, cur.idle) as u128;
    usage_of(busy, total)
}

/// Folds one tick sample (one entry per core, in core order) into the
/// registry. An empty registry is built from it; a registry whose core count
/// differs from the sample's is left as it is.
pub fn refresh_processors(list: &mut Vec<Processor>, sample: &Vec<CpuTicks>)
    ensures
        processors_refreshed(old(list)@, sample@, final(list)@),
        usages_bounded(old(list)@) ==> usages_bounded(final(list)@),
{
    let zero = CpuTicks { user: 0, system: 0, nice: 0, idle: 0 };
    if list.len() == 0 {
        let mut fresh: Vec<Processor> = Vec::new();
        fresh.push(Processor { previous: zero, current: zero, usage: 0 });
        let mut i: usize = 0;
        while i < sample.len()
            invariant
                i <= sample@.len(),
                fresh@.len() == i + 1,
                fresh@[0] == (Processor { previous: zero_ticks(), current: zero_ticks(), usage: 0 }),
                usages_bounded(fresh@),
                forall|j: int|
                    0 <= j < i ==> #[trigger] fresh@[j + 1] == (Processor {
                        previous: sample@[j],
                        current: sample@[j],
                        usage: 0,
                    }),
            decreases sample@.len() - i,
        {
            let t = sample[i];
            fresh.push(Processor { previous: t, current: t, usage: 0 });
            i = i + 1;
        }
        *list = fresh;
        return;
    }
    if list.len() - 1 != sample.len() {
        return;
    }
    let mut cores: Vec<Processor> = Vec::new();
    let mut sum: u128 = 0;
    let mut i: usize = 0;
    while i < sample.len()
        invariant
            i <= sample@.len(),
            list@.len() == sample@.len() + 1,
            list@ == old(list)@,
            cores@.len() == i,
            forall|j: int|
                0 <= j < i ==> #[trigger] cores@[j] == (Processor {
                    previous: list@[j + 1].current,
                    current: sample@[j],
                    usage: core_usage(list@[j + 1].current, sample@[j]) as u64,
                }),
            sum == usage_sum(cores@),
            sum <= i * USAGE_SCALE,
            usages_bounded(cores@),
        decreases sample@.len() - i,
    {
        let prev = list[i + 1].current;
        let cur = sample[i];
        let u = usage_between(&prev, &cur);
        let ghost before = cores@;
        cores.push(Processor { previous: prev, current: cur, usage: u });
        assert(cores@.drop_last() == before);
        sum = sum + u as u128;
        i = i + 1;
    }
    let n: usize = cores.len();
    let mean: u64 = if n == 0 {
        0
    } else {
        proof {
            let (s, c) = (sum as int, n as int);
            assert(s / c <= USAGE_SCALE) by (nonlinear_arith)
                requires s <= c * USAGE_SCALE, c > 0;
        }
        (sum / n as u128) as u64
    };
    let mut fresh: Vec<Processor> = Vec::new();
    fresh.push(Processor { previous: list[0].previous, current: list[0].current, usage: mean });
    let mut k: usize = 0;
    while k < n
        invariant
            k <= n,
            n == cores@.len(),
            fresh@.len() == k + 1,
            fresh@[0] == (Processor {
                previous: old(list)@[0].previous,
                current: old(list)@[0].current,
                usage: mean,
            }),
            forall|j: int| 0 <= j < k ==> #[trigger] fresh@[j + 1] == cores@[j],
            mean <= USAGE_SCALE,
            usages_bounded(cores@),
            usages_bounded(fresh@),
        decreases n - k,
    {
        fresh.push(cores[k]);
        k = k + 1;
    }
    assert(fresh@.skip(1) =~= cores@);
    *list = fresh;
}

proof fn lemma_idle_cores_sum_zero(cores: Seq<Processor>)
    requires
        forall|i: int| 0 <= i < cores.len() ==> #[trigger] cores[i].usage == 0,
    ensures
        usage_sum(cores) == 0,
        mean_usage(cores) == 0,
    decreases cores.len(),
{
    if cores.len() > 0 {
        lemma_idle_cores_sum_zero(cores.drop_last());
    }
}

/// After every refresh that leaves a populated registry, the aggregate
/// entry's usage is the mean of the cores' usages.
pub proof fn lemma_aggregate_is_mean(old: Seq<Processor>, sample: Seq<CpuTicks>, l: Seq<Processor>)
    requires
        processors_refreshed(old, sample, l),
        old.len() == 0 || old.len() == sample.len() + 1,
    ensures
        l[0].usage == mean_usage(l.skip(1)),
{
    if old.len() == 0 {
        assert forall|i: int| 0 <= i < l.skip(1).len() implies #[trigger] l.skip(1)[i].usage == 0 by {
            assert(l[i + 1].usage == 0);
        }
        lemma_idle_cores_sum_zero(l.skip(1));
    }
}

/// Refreshing twice with the same sample leaves every core, and the
/// aggregate, at zero usage after the second refresh.
pub proof fn lemma_cpu_refresh_idempotent(
    old: Seq<Processor>,
    sample: Seq<CpuTicks>,
    once: Seq<Processor>,
    twice: Seq<Processor>,
)
    requires
        processors_refreshed(old, sample, once),
        processors_refreshed(once, sample, twice),
        old.len() == 0 || old.len() == sample.len() + 1,
    ensures
        forall|i: int| 0 <= i < twice.len() ==> #[trigger] twice[i].usage == 0,
{
    assert forall|i: int| 0 <= i < twice.skip(1).len() implies #[trigger] twice.skip(1)[i].usage
        == 0 by {
        assert(twice[i + 1].usage == core_usage(once[i + 1].current, sample[i]) as u64);
    }
    lemma_idle_cores_sum_zero(twice.skip(1));
    assert forall|i: int| 0 <= i < twice.len() implies #[trigger] twice[i].usage == 0 by {
        if i > 0 {
            assert(twice.skip(1)[i - 1].usage == 0);
        }
    }
}

} // verus!
