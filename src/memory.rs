//! Memory, swap and uptime figures derived from raw platform counters.

use vstd::prelude::*;

verus! {

/// Page counts of the virtual memory statistics.
#[derive(Clone, Copy, Debug, PartialEq, Eq, Structural)]
pub struct VmPageCounts {
    pub active: u32,
    pub inactive: u32,
    pub wire: u32,
    pub speculative: u32,
    pub purgeable: u32,
}

pub open spec fn clamp_zero(x: int) -> int {
    if x < 0 {
        0
    } else {
        x
    }
}

/// Pages in use: active, inactive, wired and speculative pages, less the
/// purgeable ones.
pub open spec fn used_pages(p: VmPageCounts) -> int {
    clamp_zero(p.active + p.inactive + p.wire + p.speculative - p.purgeable)
}

/// Free memory in kilobytes: the total less the pages in use, never below
/// zero.
pub open spec fn free_kb(total_kb: int, p: VmPageCounts, page_size_kb: int) -> int {
    clamp_zero(total_kb - used_pages(p) * page_size_kb)
}

/// Free memory in kilobytes, from the total and the page counts.
pub fn free_memory(total_kb: u64, pages: &VmPageCounts, page_size_kb: u64) -> (r: u64)
    ensures
        r == free_kb(total_kb as int, *pages, page_size_kb as int),
{
    let in_use: u64 = pages.active as u64 + pages.inactive as u64 + pages.wire as u64
        + pages.speculative as u64;
    let used: u64 = if in_use >= pages.purgeable as u64 {
        in_use - pages.purgeable as u64
    } else {
        0
    };
    proof {
        assert(used * page_size_kb <= 0x4_0000_0000u128 * 0x1_0000_0000_0000_0000u128)
            by (nonlinear_arith)
            requires used <= 0x4_0000_0000u64, page_size_kb <= u64::MAX;
    }
    let used_kb: u128 = used as u128 * page_size_kb as u128;
    if used_kb >= total_kb as u128 {
        0
    } else {
        (total_kb as u128 - used_kb) as u64
    }
}

/// Seconds since boot: zero when the boot time is unknown or lies after
/// `now`.
pub fn uptime_seconds(boot: Option<i64>, now: i64) -> (r: u64)
    ensures
        r == match boot {
            Some(b) => clamp_zero(now - b),
            None => 0,
        },
{
    match boot {
        Some(b) => {
            if now <= b {
                0
            } else {
                (now as i128 - b as i128) as u64
            }
        },
        None => 0,
    }
}

} // verus!
