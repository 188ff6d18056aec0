//! The network registry: received and transmitted byte totals of all
//! interfaces together, two generations of each.

use vstd::prelude::*;

use crate::delta::{clamped_delta, CounterPair};

verus! {

/// Byte totals of all interfaces, as the two most recent readings.
#[derive(Clone, Copy, Debug, PartialEq, Eq, Structural)]
pub struct NetworkData {
    pub received: CounterPair,
    pub transmitted: CounterPair,
    /// Whether a reading has been installed yet.
    pub seen: bool,
}

/// The value that a byte counter of one interface adds to the totals: what
/// was read, or nothing when it could not be read.
pub open spec fn reading_value(r: Option<u64>) -> int {
    match r {
        Some(v) => v as int,
        None => 0,
    }
}

/// Sum of the received (`tx == false`) or transmitted (`tx == true`) counters
/// of the interfaces in `rs`.
pub open spec fn interface_sum(rs: Seq<(Option<u64>, Option<u64>)>, tx: bool) -> int
    decreases rs.len(),
{
    if rs.len() == 0 {
        0
    } else {
        let last = rs.last();
        interface_sum(rs.drop_last(), tx) + reading_value(if tx { last.1 } else { last.0 })
    }
}

impl NetworkData {
    /// The registry after a refresh. The first sample fills both generations,
    /// so the first rates are zero; a later one moves the current totals to
    /// the previous generation; no sample leaves everything as it was.
    pub open spec fn refreshed(self, sample: Option<(u64, u64)>) -> NetworkData {
        match sample {
            Some((rx, tx)) => if self.seen {
                NetworkData {
                    received: self.received.advanced(rx),
                    transmitted: self.transmitted.advanced(tx),
                    seen: true,
                }
            } else {
                NetworkData {
                    received: CounterPair { previous: rx, current: rx },
                    transmitted: CounterPair { previous: tx, current: tx },
                    seen: true,
                }
            },
            None => self,
        }
    }

    /// Bytes received between the two most recent readings.
    pub fn get_income(&self) -> (r: u64)
        ensures
            r == clamped_delta(self.received.previous as int, self.received.current as int),
    {
        self.received.rate()
    }

    /// Bytes transmitted between the two most recent readings.
    pub fn get_outcome(&self) -> (r: u64)
        ensures
            r == clamped_delta(self.transmitted.previous as int, self.transmitted.current as int),
    {
        self.transmitted.rate()
    }
}

/// The registry before any reading: every total is zero.
pub open spec fn spec_empty() -> NetworkData {
    NetworkData {
        received: CounterPair { previous: 0, current: 0 },
        transmitted: CounterPair { previous: 0, current: 0 },
        seen: false,
    }
}

/// An empty registry: every total and every rate is zero.
pub fn new() -> (r: NetworkData)
    ensures
        r == spec_empty(),
{
    NetworkData { received: CounterPair::first(0), transmitted: CounterPair::first(0), seen: false }
}

/// Installs a fresh `(received, transmitted)` sample; `None`, a sample that
/// could not be read, keeps the previous values.
pub fn update_network(n: &mut NetworkData, sample: Option<(u64, u64)>)
    ensures
        *final(n) == old(n).refreshed(sample),
{
    if let Some((new_in, new_out)) = sample {
        if n.seen {
            n.received.advance(new_in);
            n.transmitted.advance(new_out);
        } else {
            n.received = CounterPair::first(new_in);
            n.transmitted = CounterPair::first(new_out);
            n.seen = true;
        }
    }
}

/// Adds up the `(received, transmitted)` counters of each interface, an
/// unreadable counter counting as zero. `None` when a total does not fit in
/// 64 bits, which makes the sample unusable.
pub fn sum_interface_totals(readings: &Vec<(Option<u64>, Option<u64>)>) -> (r: Option<(u64, u64)>)
    ensures
        r.is_some() <==> interface_sum(readings@, false) <= u64::MAX && interface_sum(
            readings@,
            true,
        ) <= u64::MAX,
        r matches Some((rx, tx)) ==> rx == interface_sum(readings@, false) && tx
            == interface_sum(readings@, true),
{
    let mut rx: u64 = 0;
    let mut tx: u64 = 0;
    let mut i: usize = 0;
    while i < readings.len()
        invariant
            i <= readings@.len(),
            rx == interface_sum(readings@.take(i as int), false),
            tx == interface_sum(readings@.take(i as int), true),
        decreases readings@.len() - i,
    {
        proof {
            lemma_interface_sum_monotone(readings@, (i + 1) as int);
        }
        let (r_in, r_out) = readings[i];
        assert(readings@.take(i + 1).drop_last() == readings@.take(i as int));
        let add_in: u64 = match r_in {
            Some(v) => v,
            None => 0,
        };
        let add_out: u64 = match r_out {
            Some(v) => v,
            None => 0,
        };
        if rx > u64::MAX - add_in || tx > u64::MAX - add_out {
            return None;
        }
        rx = rx + add_in;
        tx = tx + add_out;
        i = i + 1;
    }
    assert(readings@.take(readings@.len() as int) == readings@);
    Some((rx, tx))
}

/// Totals of a prefix never exceed those of the whole sequence.
proof fn lemma_interface_sum_monotone(rs: Seq<(Option<u64>, Option<u64>)>, k: int)
    requires
        0 <= k <= rs.len(),
    ensures
        interface_sum(rs.take(k), false) <= interface_sum(rs, false),
        interface_sum(rs.take(k), true) <= interface_sum(rs, true),
    decreases rs.len(),
{
    if k < rs.len() {
        assert(rs.drop_last().take(k) == rs.take(k));
        lemma_interface_sum_monotone(rs.drop_last(), k);
    } else {
        assert(rs.take(k) == rs);
    }
}

/// Refreshing twice from a source whose totals did not change reports no
/// traffic on the second refresh.
pub proof fn lemma_network_refresh_idempotent(n: NetworkData, rx: u64, tx: u64)
    ensures
        ({
            let twice = n.refreshed(Some((rx, tx))).refreshed(Some((rx, tx)));
            clamped_delta(twice.received.previous as int, twice.received.current as int) == 0
                && clamped_delta(twice.transmitted.previous as int, twice.transmitted.current as int)
                == 0
        }),
{
}

} // verus!
