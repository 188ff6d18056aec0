//! Polled snapshots of host resource state: counter deltas, usage fractions
//! and entity registries refreshed from plain provider samples.

pub mod delta;
pub mod devices;
pub mod memory;
pub mod network;
pub mod process;
pub mod processor;
pub mod system;

pub use delta::{percentage, CounterPair, USAGE_SCALE};
pub use devices::{Component, Disk};
pub use memory::VmPageCounts;
pub use network::{new, update_network, NetworkData};
pub use process::{Pid, Process, ProcessDetail};
pub use processor::{CpuTicks, Processor};
pub use system::{MemorySample, System};
