//! The snapshot that consumers hold: one instance of each registry plus the
//! memory, swap and uptime figures, refreshed from provider samples.

use vstd::prelude::*;

use std::collections::HashMap;

use crate::devices::{
    found_only, keep_found, reading_at, refresh_component_values, refresh_disk_values, Component,
    Disk, component_read, disk_read,
};
use crate::memory::{clamp_zero, free_kb, free_memory, VmPageCounts};
use crate::network::{update_network, NetworkData};
use crate::process::{
    fetched_for, known, merged, refresh_one, refresh_process_list, scanned, Pid, Process,
    ProcessDetail,
};
use crate::processor::{
    processors_refreshed, refresh_processors, usages_bounded, CpuTicks, Processor,
};

verus! {

broadcast use vstd::std_specs::hash::group_hash_axioms;

/// One reading of the memory counters, taken together. `None` marks a counter
/// family that could not be read.
#[derive(Clone, Copy, Debug)]
pub struct MemorySample {
    /// Seconds since boot.
    pub uptime: u64,
    /// Physical memory, in bytes.
    pub mem_total_bytes: Option<u64>,
    pub pages: Option<VmPageCounts>,
    /// Swap `(total, available)`, in bytes.
    pub swap_bytes: Option<(u64, u64)>,
}

/// What a `System` holds, as mathematical values. Memory figures are in
/// kilobytes.
pub struct SystemView {
    pub processes: Map<Pid, Process>,
    pub processors: Seq<Processor>,
    pub network: NetworkData,
    pub mem_total: u64,
    pub mem_free: u64,
    pub swap_total: u64,
    pub swap_free: u64,
    pub page_size_kb: u64,
    pub uptime: u64,
    pub disks: Seq<Disk>,
    pub components: Seq<Component>,
}

impl SystemView {
    /// What every snapshot keeps: usages within `[0, USAGE_SCALE]` and free
    /// memory within the total.
    pub open spec fn wf(self) -> bool {
        &&& usages_bounded(self.processors)
        &&& self.mem_free <= self.mem_total
    }
}

/// The figures after a memory refresh. Figures that could not be read keep
/// their last values, but free memory never exceeds the total; free memory
/// follows the page counts.
pub open spec fn memory_refreshed(v: SystemView, s: MemorySample) -> SystemView {
    let mem_total: u64 = match s.mem_total_bytes {
        Some(b) => (b / 1024) as u64,
        None => v.mem_total,
    };
    SystemView {
        uptime: s.uptime,
        mem_total,
        mem_free: match s.pages {
            Some(p) => free_kb(mem_total as int, p, v.page_size_kb as int) as u64,
            None => if v.mem_free <= mem_total { v.mem_free } else { mem_total },
        },
        swap_total: match s.swap_bytes {
            Some((t, _)) => (t / 1024) as u64,
            None => v.swap_total,
        },
        swap_free: match s.swap_bytes {
            Some((_, a)) => (a / 1024) as u64,
            None => v.swap_free,
        },
        ..v
    }
}

/// Installing the same memory reading twice gives the same figures as
/// installing it once.
pub proof fn lemma_memory_refresh_idempotent(v: SystemView, s: MemorySample)
    ensures
        memory_refreshed(memory_refreshed(v, s), s) == memory_refreshed(v, s),
{
}

/// Installing the same disk and sensor readings twice gives the same records
/// as installing them once.
pub proof fn lemma_point_readings_idempotent(d: Disk, rd: Option<u64>, c: Component, rc: Option<i64>)
    ensures
        disk_read(disk_read(d, rd), rd) == disk_read(d, rd),
        component_read(component_read(c, rc), rc) == component_read(c, rc),
{
}

/// A snapshot of the host's resources.
pub struct System {
    process_list: HashMap<Pid, Process>,
    mem_total: u64,
    mem_free: u64,
    swap_total: u64,
    swap_free: u64,
    processors: Vec<Processor>,
    page_size_kb: u64,
    temperatures: Vec<Component>,
    disks: Vec<Disk>,
    network: NetworkData,
    uptime: u64,
}

impl View for System {
    type V = SystemView;

    closed spec fn view(&self) -> SystemView {
        SystemView {
            processes: self.process_list@,
            processors: self.processors@,
            network: self.network,
            mem_total: self.mem_total,
            mem_free: self.mem_free,
            swap_total: self.swap_total,
            swap_free: self.swap_free,
            page_size_kb: self.page_size_kb,
            uptime: self.uptime,
            disks: self.disks@,
            components: self.temperatures@,
        }
    }
}

impl System {
    /// An empty snapshot for a machine with pages of `page_size_bytes` bytes,
    /// booted `uptime` seconds ago.
    pub fn new(page_size_bytes: u64, uptime: u64) -> (r: System)
        ensures
            r@.processes == Map::<Pid, Process>::empty(),
            r@.processors == Seq::<Processor>::empty(),
            r@.network == crate::network::spec_empty(),
            r@.mem_total == 0,
            r@.mem_free == 0,
            r@.swap_total == 0,
            r@.swap_free == 0,
            r@.page_size_kb == page_size_bytes / 1024,
            r@.uptime == uptime,
            r@.disks == Seq::<Disk>::empty(),
            r@.components == Seq::<Component>::empty(),
            r@.wf(),
    {
        System {
            process_list: HashMap::new(),
            mem_total: 0,
            mem_free: 0,
            swap_total: 0,
            swap_free: 0,
            processors: Vec::new(),
            page_size_kb: page_size_bytes / 1024,
            temperatures: Vec::new(),
            disks: Vec::new(),
            network: crate::network::new(),
            uptime,
        }
    }

    /// Installs one reading of the memory counters.
    pub fn refresh_memory(&mut self, sample: MemorySample)
        requires
            old(self)@.wf(),
        ensures
            final(self)@.wf(),
            final(self)@ == memory_refreshed(old(self)@, sample),
    {
        self.uptime = sample.uptime;
        if let Some((total, avail)) = sample.swap_bytes {
            self.swap_total = total / 1024;
            self.swap_free = avail / 1024;
        }
        if let Some(bytes) = sample.mem_total_bytes {
            self.mem_total = bytes / 1024;
        }
        match sample.pages {
            Some(pages) => {
                self.mem_free = free_memory(self.mem_total, &pages, self.page_size_kb);
            },
            None => {
                if self.mem_free > self.mem_total {
                    self.mem_free = self.mem_total;
                }
            },
        }
    }

    /// Installs one tick sample of all cores (`None` when it could not be
    /// read) and the uptime.
    pub fn refresh_cpu(&mut self, uptime: u64, sample: Option<Vec<CpuTicks>>)
        requires
            old(self)@.wf(),
        ensures
            final(self)@.wf(),
            final(self)@ == (SystemView {
                uptime,
                processors: final(self)@.processors,
                ..old(self)@
            }),
            sample matches Some(s) ==> processors_refreshed(
                old(self)@.processors,
                s@,
                final(self)@.processors,
            ),
            sample.is_none() ==> final(self)@.processors == old(self)@.processors,
    {
        self.uptime = uptime;
        if let Some(s) = sample {
            refresh_processors(&mut self.processors, &s);
        }
    }

    /// Installs one `(received, transmitted)` sample of the network totals.
    pub fn refresh_network(&mut self, sample: Option<(u64, u64)>)
        requires
            old(self)@.wf(),
        ensures
            final(self)@.wf(),
            final(self)@ == (SystemView { network: old(self)@.network.refreshed(sample), ..old(self)@ }),
    {
        update_network(&mut self.network, sample);
    }

    /// Merges the details fetched in one full process scan: listed processes
    /// are inserted or updated, all others evicted.
    pub fn refresh_processes(&mut self, details: &Vec<ProcessDetail>)
        requires
            old(self)@.wf(),
        ensures
            final(self)@.wf(),
            final(self)@ == (SystemView {
                processes: scanned(old(self)@.processes, details@),
                ..old(self)@
            }),
    {
        refresh_process_list(&mut self.process_list, details);
    }

    /// Merges the detail fetched for `pid`, if one of that process came back,
    /// and says whether it did. No other record is touched.
    pub fn refresh_process(&mut self, pid: Pid, detail: Option<ProcessDetail>) -> (r: bool)
        requires
            old(self)@.wf(),
        ensures
            final(self)@.wf(),
            r == fetched_for(pid, detail),
            r ==> final(self)@ == (SystemView {
                processes: old(self)@.processes.insert(
                    pid,
                    merged(known(old(self)@.processes, pid), detail->0),
                ),
                ..old(self)@
            }),
            !r ==> final(self)@ == old(self)@,
    {
        refresh_one(&mut self.process_list, pid, detail)
    }

    /// Installs the free space read for each known disk, by position.
    pub fn refresh_disks(&mut self, readings: &Vec<Option<u64>>)
        requires
            old(self)@.wf(),
        ensures
            final(self)@.wf(),
            final(self)@ == (SystemView { disks: final(self)@.disks, ..old(self)@ }),
            final(self)@.disks.len() == old(self)@.disks.len(),
            forall|i: int|
                0 <= i < old(self)@.disks.len() ==> #[trigger] final(self)@.disks[i] == disk_read(
                    old(self)@.disks[i],
                    reading_at(readings@, i),
                ),
    {
        refresh_disk_values(&mut self.disks, readings);
    }

    /// Replaces the list of disks with a fresh enumeration.
    pub fn refresh_disk_list(&mut self, disks: Vec<Disk>)
        requires
            old(self)@.wf(),
        ensures
            final(self)@.wf(),
            final(self)@ == (SystemView { disks: disks@, ..old(self)@ }),
    {
        self.disks = disks;
    }

    /// Installs the temperature read for each known sensor, by position.
    pub fn refresh_temperatures(&mut self, readings: &Vec<Option<i64>>)
        requires
            old(self)@.wf(),
        ensures
            final(self)@.wf(),
            final(self)@ == (SystemView { components: final(self)@.components, ..old(self)@ }),
            final(self)@.components.len() == old(self)@.components.len(),
            forall|i: int|
                0 <= i < old(self)@.components.len() ==> #[trigger] final(self)@.components[i]
                    == component_read(old(self)@.components[i], reading_at(readings@, i)),
    {
        refresh_component_values(&mut self.temperatures, readings);
    }

    /// Replaces the list of sensors with those of a fresh enumeration that
    /// could be opened.
    pub fn refresh_component_list(&mut self, found: Vec<Option<Component>>)
        requires
            old(self)@.wf(),
        ensures
            final(self)@.wf(),
            final(self)@ == (SystemView { components: found_only(found@), ..old(self)@ }),
    {
        self.temperatures = keep_found(found);
    }

    pub fn get_process_list(&self) -> (r: &HashMap<Pid, Process>)
        ensures
            r@ == self@.processes,
    {
        &self.process_list
    }

    pub fn get_process(&self, pid: Pid) -> (r: Option<&Process>)
        ensures
            r matches Some(p) ==> self@.processes.contains_key(pid) && *p == self@.processes[pid],
            r is None ==> !self@.processes.contains_key(pid),
    {
        self.process_list.get(&pid)
    }

    pub fn get_processor_list(&self) -> (r: &[Processor])
        ensures
            r@ == self@.processors,
    {
        self.processors.as_slice()
    }

    pub fn get_network(&self) -> (r: &NetworkData)
        ensures
            *r == self@.network,
    {
        &self.network
    }

    pub fn get_total_memory(&self) -> (r: u64)
        ensures
            r == self@.mem_total,
    {
        self.mem_total
    }

    pub fn get_free_memory(&self) -> (r: u64)
        ensures
            r == self@.mem_free,
    {
        self.mem_free
    }

    /// Memory in use: the total less the free memory, never below zero.
    pub fn get_used_memory(&self) -> (r: u64)
        ensures
            r == clamp_zero(self@.mem_total - self@.mem_free),
    {
        if self.mem_total >= self.mem_free {
            self.mem_total - self.mem_free
        } else {
            0
        }
    }

    pub fn get_total_swap(&self) -> (r: u64)
        ensures
            r == self@.swap_total,
    {
        self.swap_total
    }

    pub fn get_free_swap(&self) -> (r: u64)
        ensures
            r == self@.swap_free,
    {
        self.swap_free
    }

    /// Swap in use: the total less the free swap, never below zero.
    pub fn get_used_swap(&self) -> (r: u64)
        ensures
            r == clamp_zero(self@.swap_total - self@.swap_free),
    {
        if self.swap_total >= self.swap_free {
            self.swap_total - self.swap_free
        } else {
            0
        }
    }

    pub fn get_components_list(&self) -> (r: &[Component])
        ensures
            r@ == self@.components,
    {
        self.temperatures.as_slice()
    }

    pub fn get_disks(&self) -> (r: &[Disk])
        ensures
            r@ == self@.disks,
    {
        self.disks.as_slice()
    }

    pub fn get_uptime(&self) -> (r: u64)
        ensures
            r == self@.uptime,
    {
        self.uptime
    }

    pub fn get_page_size_kb(&self) -> (r: u64)
        ensures
            r == self@.page_size_kb,
    {
        self.page_size_kb
    }
}

} // verus!
