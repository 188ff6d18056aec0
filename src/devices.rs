//! Disk and sensor registries: point-in-time readings, no second generation.

use vstd::prelude::*;

verus! {

/// One mounted disk.
#[derive(Clone, Debug)]
pub struct Disk {
    pub name: String,
    pub mount_point: String,
    /// Capacity, in bytes.
    pub total_space: u64,
    /// Space left, in bytes.
    pub available_space: u64,
}

/// One temperature sensor. Temperatures are in thousandths of a degree
/// Celsius.
#[derive(Clone, Debug)]
pub struct Component {
    pub label: String,
    pub temperature: i64,
    /// Highest temperature seen so far.
    pub max: i64,
    pub critical: Option<i64>,
}

/// The reading given for position `i`, if any.
pub open spec fn reading_at<T>(readings: Seq<Option<T>>, i: int) -> Option<T> {
    if 0 <= i < readings.len() {
        readings[i]
    } else {
        None
    }
}

/// A disk after a reading of its free space.
pub open spec fn disk_read(d: Disk, r: Option<u64>) -> Disk {
    match r {
        Some(v) => Disk { available_space: v, ..d },
        None => d,
    }
}

/// A sensor after a reading of its temperature; the maximum follows.
pub open spec fn component_read(c: Component, r: Option<i64>) -> Component {
    match r {
        Some(t) => Component { temperature: t, max: if t > c.max { t } else { c.max }, ..c },
        None => c,
    }
}

/// Installs the free space read for each known disk, by position; a disk
/// without a reading keeps its last value.
pub fn refresh_disk_values(disks: &mut Vec<Disk>, readings: &Vec<Option<u64>>)
    ensures
        final(disks)@.len() == old(disks)@.len(),
        forall|i: int|
            0 <= i < old(disks)@.len() ==> #[trigger] final(disks)@[i] == disk_read(
                old(disks)@[i],
                reading_at(readings@, i),
            ),
{
    let mut i: usize = 0;
    while i < disks.len()
        invariant
            i <= disks@.len(),
            disks@.len() == old(disks)@.len(),
            forall|j: int|
                0 <= j < i ==> #[trigger] disks@[j] == disk_read(
                    old(disks)@[j],
                    reading_at(readings@, j),
                ),
            forall|j: int| i <= j < disks@.len() ==> #[trigger] disks@[j] == old(disks)@[j],
        decreases disks@.len() - i,
    {
        if i < readings.len() {
            if let Some(v) = readings[i] {
                disks[i].available_space = v;
            }
        }
        i = i + 1;
    }
}

/// Installs the temperature read for each known sensor, by position; a
/// sensor without a reading keeps its last value.
pub fn refresh_component_values(components: &mut Vec<Component>, readings: &Vec<Option<i64>>)
    ensures
        final(components)@.len() == old(components)@.len(),
        forall|i: int|
            0 <= i < old(components)@.len() ==> #[trigger] final(components)@[i] == component_read(
                old(components)@[i],
                reading_at(readings@, i),
            ),
{
    let mut i: usize = 0;
    while i < components.len()
        invariant
            i <= components@.len(),
            components@.len() == old(components)@.len(),
            forall|j: int|
                0 <= j < i ==> #[trigger] components@[j] == component_read(
                    old(components)@[j],
                    reading_at(readings@, j),
                ),
            forall|j: int| i <= j < components@.len() ==> #[trigger] components@[j] == old(
                components,
            )@[j],
        decreases components@.len() - i,
    {
        if i < readings.len() {
            if let Some(t) = readings[i] {
                let c = &mut components[i];
                c.temperature = t;
                if t > c.max {
                    c.max = t;
                }
            }
        }
        i = i + 1;
    }
}

/// The sensors that could be opened, in the order found.
pub open spec fn found_only(found: Seq<Option<Component>>) -> Seq<Component>
    decreases found.len(),
{
    if found.len() == 0 {
        Seq::empty()
    } else {
        let rest = found_only(found.drop_last());
        match found.last() {
            Some(c) => rest.push(c),
            None => rest,
        }
    }
}

/// Keeps the sensors that could be opened, in order.
pub fn keep_found(found: Vec<Option<Component>>) -> (r: Vec<Component>)
    ensures
        r@ == found_only(found@),
{
    let mut kept: Vec<Component> = Vec::new();
    let mut rest = found;
    let mut stack: Vec<Component> = Vec::new();
    // Walk from the back, then restore the order.
    while rest.len() > 0
        invariant
            found_only(found@) == found_only(rest@) + stack@.reverse(),
        decreases rest@.len(),
    {
        let ghost before = rest@;
        let last = rest.pop();
        assert(rest@ == before.drop_last());
        if let Some(Some(c)) = last {
            proof {
                assert(stack@.push(c).reverse() =~= seq![c] + stack@.reverse());
                assert(found_only(before) == found_only(rest@).push(c));
                assert(found_only(rest@).push(c) + stack@.reverse() =~= found_only(rest@) + (seq![c]
                    + stack@.reverse()));
            }
            stack.push(c);
        }
    }
    assert(found_only(rest@) == Seq::<Component>::empty());
    while stack.len() > 0
        invariant
            found_only(found@) == kept@ + stack@.reverse(),
        decreases stack@.len(),
    {
        let ghost before = stack@;
        let c = stack.pop().unwrap();
        proof {
            assert(before == stack@.push(c));
            assert(before.reverse() =~= seq![c] + stack@.reverse());
            assert(kept@ + before.reverse() =~= kept@.push(c) + stack@.reverse());
        }
        kept.push(c);
    }
    assert(kept@ + stack@.reverse() =~= kept@);
    kept
}

} // verus!
