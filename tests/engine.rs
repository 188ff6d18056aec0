use sysinfo::devices::{Component, Disk};
use sysinfo::memory::{free_memory, uptime_seconds, VmPageCounts};
use sysinfo::network::{new, sum_interface_totals, update_network};
use sysinfo::processor::{usage_between, CpuTicks};
use sysinfo::{percentage, CounterPair, MemorySample, ProcessDetail, System, USAGE_SCALE};

fn ticks(user: u64, system: u64, nice: u64, idle: u64) -> CpuTicks {
    CpuTicks { user, system, nice, idle }
}

fn detail(pid: i32, cpu_ticks: u64, memory: u64) -> ProcessDetail {
    ProcessDetail {
        pid,
        parent: Some(1),
        cmd: format!("proc{}", pid),
        start_time: 10,
        cpu_ticks,
        memory,
    }
}

#[test]
fn rate_is_exact_difference_when_counter_grows() {
    assert_eq!(CounterPair { previous: 1000, current: 1500 }.rate(), 500);
    assert_eq!(CounterPair { previous: 7, current: 7 }.rate(), 0);
    assert_eq!(CounterPair { previous: 0, current: u64::MAX }.rate(), u64::MAX);
}

#[test]
fn rate_is_zero_when_counter_goes_back() {
    assert_eq!(CounterPair { previous: 1500, current: 1000 }.rate(), 0);
    assert_eq!(CounterPair { previous: u64::MAX, current: 0 }.rate(), 0);
}

#[test]
fn counter_pair_first_and_advance() {
    let mut c = CounterPair::first(42);
    assert_eq!(c.rate(), 0);
    c.advance(50);
    assert_eq!(c, CounterPair { previous: 42, current: 50 });
    assert_eq!(c.rate(), 8);
}

#[test]
fn percentage_edge_values() {
    assert_eq!(percentage(0, 0), 0);
    assert_eq!(percentage(5, 0), 0);
    assert_eq!(percentage(17, 17), USAGE_SCALE);
    assert_eq!(percentage(u64::MAX, u64::MAX), USAGE_SCALE);
    assert_eq!(percentage(60, 100), 600_000);
    assert_eq!(percentage(1, 3), 333_333);
    assert_eq!(percentage(200, 100), USAGE_SCALE);
    assert!(percentage(u64::MAX - 1, u64::MAX) <= USAGE_SCALE);
}

#[test]
fn network_totals_scenario() {
    let mut n = new();
    assert_eq!(n.get_income(), 0);
    assert_eq!(n.get_outcome(), 0);
    update_network(&mut n, Some((1000, 500)));
    update_network(&mut n, Some((1500, 800)));
    assert_eq!(n.get_income(), 500);
    assert_eq!(n.get_outcome(), 300);
}

#[test]
fn network_first_reading_reports_no_traffic() {
    let mut n = new();
    update_network(&mut n, Some((1000, 500)));
    assert_eq!(n.get_income(), 0);
    assert_eq!(n.get_outcome(), 0);
    let mut m = new();
    update_network(&mut m, None);
    update_network(&mut m, Some((7, 9)));
    assert_eq!(m.get_income(), 0);
    assert_eq!(m.get_outcome(), 0);
}

#[test]
fn network_refresh_twice_reports_no_traffic() {
    let mut n = new();
    update_network(&mut n, Some((1000, 500)));
    update_network(&mut n, Some((1500, 800)));
    update_network(&mut n, Some((1500, 800)));
    assert_eq!(n.get_income(), 0);
    assert_eq!(n.get_outcome(), 0);
}

#[test]
fn network_counter_reset_clamps() {
    let mut n = new();
    update_network(&mut n, Some((1000, 500)));
    update_network(&mut n, Some((10, 900)));
    assert_eq!(n.get_income(), 0);
    assert_eq!(n.get_outcome(), 400);
}

#[test]
fn network_unreadable_sample_keeps_values() {
    let mut n = new();
    update_network(&mut n, Some((1000, 500)));
    update_network(&mut n, Some((1500, 800)));
    update_network(&mut n, None);
    assert_eq!(n.get_income(), 500);
    assert_eq!(n.get_outcome(), 300);
}

#[test]
fn interface_totals_are_summed() {
    let r = vec![(Some(100), Some(10)), (None, Some(5)), (Some(7), None)];
    assert_eq!(sum_interface_totals(&r), Some((107, 15)));
    assert_eq!(sum_interface_totals(&vec![]), Some((0, 0)));
    let over = vec![(Some(u64::MAX), Some(1)), (Some(1), Some(1))];
    assert_eq!(sum_interface_totals(&over), None);
}

#[test]
fn two_core_scenario() {
    let mut s = System::new(4096, 0);
    let first = vec![ticks(100, 50, 0, 850), ticks(100, 50, 0, 850)];
    s.refresh_cpu(5, Some(first));
    let list = s.get_processor_list();
    assert_eq!(list.len(), 3);
    assert!(list.iter().all(|p| p.get_cpu_usage() == 0));
    let second = vec![ticks(150, 60, 0, 890), ticks(150, 60, 0, 890)];
    s.refresh_cpu(6, Some(second));
    let list = s.get_processor_list();
    assert_eq!(list[1].get_cpu_usage(), 600_000);
    assert_eq!(list[2].get_cpu_usage(), 600_000);
    assert_eq!(list[0].get_cpu_usage(), 600_000);
    assert_eq!(s.get_uptime(), 6);
}

#[test]
fn aggregate_is_mean_of_cores() {
    let mut s = System::new(4096, 0);
    s.refresh_cpu(1, Some(vec![ticks(0, 0, 0, 0), ticks(0, 0, 0, 0), ticks(0, 0, 0, 0)]));
    s.refresh_cpu(2, Some(vec![ticks(60, 0, 0, 40), ticks(10, 5, 5, 80), ticks(0, 0, 0, 0)]));
    let list = s.get_processor_list();
    assert_eq!(list[1].get_cpu_usage(), 600_000);
    assert_eq!(list[2].get_cpu_usage(), 200_000);
    assert_eq!(list[3].get_cpu_usage(), 0);
    assert_eq!(list[0].get_cpu_usage(), 266_666);
}

#[test]
fn cpu_refresh_twice_gives_zero_usage() {
    let mut s = System::new(4096, 0);
    s.refresh_cpu(1, Some(vec![ticks(100, 50, 0, 850)]));
    s.refresh_cpu(2, Some(vec![ticks(150, 60, 0, 890)]));
    s.refresh_cpu(3, Some(vec![ticks(150, 60, 0, 890)]));
    assert!(s.get_processor_list().iter().all(|p| p.get_cpu_usage() == 0));
}

#[test]
fn cpu_sample_with_other_core_count_is_ignored() {
    let mut s = System::new(4096, 0);
    s.refresh_cpu(1, Some(vec![ticks(100, 50, 0, 850)]));
    s.refresh_cpu(2, Some(vec![ticks(150, 60, 0, 890)]));
    let before: Vec<_> = s.get_processor_list().to_vec();
    s.refresh_cpu(3, Some(vec![ticks(1, 1, 1, 1), ticks(2, 2, 2, 2)]));
    assert_eq!(s.get_processor_list().to_vec(), before);
    s.refresh_cpu(4, None);
    assert_eq!(s.get_processor_list().to_vec(), before);
    assert_eq!(s.get_uptime(), 4);
}

#[test]
fn core_usage_counts_busy_ticks() {
    assert_eq!(usage_between(&ticks(100, 50, 0, 850), &ticks(150, 60, 0, 890)), 600_000);
    assert_eq!(usage_between(&ticks(5, 5, 5, 5), &ticks(5, 5, 5, 5)), 0);
    assert_eq!(usage_between(&ticks(9, 0, 0, 9), &ticks(1, 0, 0, 1)), 0);
    assert_eq!(usage_between(&ticks(0, 0, 0, 0), &ticks(1, 1, 2, 0)), USAGE_SCALE);
}

#[test]
fn process_absent_from_scan_is_evicted() {
    let mut s = System::new(4096, 0);
    s.refresh_processes(&vec![detail(1, 10, 100), detail(2, 20, 200)]);
    assert_eq!(s.get_process_list().len(), 2);
    s.refresh_processes(&vec![detail(1, 15, 110)]);
    assert!(s.get_process(2).is_none());
    assert_eq!(s.get_process_list().len(), 1);
}

#[test]
fn partial_failure_updates_fetched_and_evicts_failed() {
    let mut s = System::new(4096, 0);
    s.refresh_processes(&vec![detail(1, 10, 100), detail(2, 20, 200)]);
    // The detail of pid 2 could not be fetched in this pass, nor that of a new pid 3.
    s.refresh_processes(&vec![detail(1, 25, 120)]);
    let a = s.get_process(1).unwrap();
    assert_eq!(a.cpu_ticks, CounterPair { previous: 10, current: 25 });
    assert_eq!(a.memory, CounterPair { previous: 100, current: 120 });
    assert_eq!(a.cpu_ticks_delta(), 15);
    assert!(s.get_process(2).is_none());
    assert!(s.get_process(3).is_none());
}

#[test]
fn new_process_starts_with_zero_delta() {
    let mut s = System::new(4096, 0);
    s.refresh_processes(&vec![detail(7, 500, 64)]);
    let p = s.get_process(7).unwrap();
    assert_eq!(p.cpu_ticks_delta(), 0);
    assert_eq!(p.cmd, "proc7");
    assert_eq!(p.parent, Some(1));
}

#[test]
fn process_scan_twice_gives_zero_delta() {
    let mut s = System::new(4096, 0);
    s.refresh_processes(&vec![detail(1, 10, 100)]);
    s.refresh_processes(&vec![detail(1, 30, 100)]);
    s.refresh_processes(&vec![detail(1, 30, 100)]);
    assert_eq!(s.get_process(1).unwrap().cpu_ticks_delta(), 0);
}

#[test]
fn single_process_refresh() {
    let mut s = System::new(4096, 0);
    s.refresh_processes(&vec![detail(1, 10, 100), detail(2, 20, 200)]);
    assert!(s.refresh_process(2, Some(detail(2, 26, 200))));
    assert_eq!(s.get_process(2).unwrap().cpu_ticks_delta(), 6);
    assert_eq!(s.get_process(1).unwrap().cpu_ticks.current, 10);
    assert!(!s.refresh_process(1, None));
    assert_eq!(s.get_process_list().len(), 2);
    assert!(s.refresh_process(9, Some(detail(9, 1, 1))));
    assert_eq!(s.get_process_list().len(), 3);
}

#[test]
fn single_process_refresh_rejects_other_pid() {
    let mut s = System::new(4096, 0);
    s.refresh_processes(&vec![detail(1, 10, 100)]);
    assert!(!s.refresh_process(1, Some(detail(5, 99, 99))));
    assert!(s.get_process(5).is_none());
    assert_eq!(s.get_process(1).unwrap().cpu_ticks.current, 10);
}

#[test]
fn memory_refresh_and_derived_figures() {
    let mut s = System::new(4096, 0);
    assert_eq!(s.get_page_size_kb(), 4);
    let pages = VmPageCounts { active: 100, inactive: 50, wire: 30, speculative: 20, purgeable: 10 };
    s.refresh_memory(MemorySample {
        uptime: 77,
        mem_total_bytes: Some(8 * 1024 * 1024),
        pages: Some(pages),
        swap_bytes: Some((2048 * 1024, 1024 * 1024)),
    });
    assert_eq!(s.get_total_memory(), 8192);
    assert_eq!(s.get_free_memory(), 8192 - 190 * 4);
    assert_eq!(s.get_used_memory(), 760);
    assert_eq!(s.get_total_swap(), 2048);
    assert_eq!(s.get_free_swap(), 1024);
    assert_eq!(s.get_used_swap(), 1024);
    assert_eq!(s.get_uptime(), 77);
    // Swap and pages unreadable: their figures stay.
    s.refresh_memory(MemorySample { uptime: 78, mem_total_bytes: None, pages: None, swap_bytes: None });
    assert_eq!(s.get_total_memory(), 8192);
    assert_eq!(s.get_free_memory(), 8192 - 760);
    assert_eq!(s.get_total_swap(), 2048);
    assert_eq!(s.get_free_swap(), 1024);
    // A new total is installed; free memory stays within it.
    s.refresh_memory(MemorySample {
        uptime: 79,
        mem_total_bytes: Some(4096 * 1024),
        pages: None,
        swap_bytes: None,
    });
    assert_eq!(s.get_total_memory(), 4096);
    assert_eq!(s.get_free_memory(), 4096);
    assert_eq!(s.get_used_memory(), 0);
}

#[test]
fn free_memory_formula() {
    let pages = VmPageCounts { active: 10, inactive: 0, wire: 0, speculative: 0, purgeable: 4 };
    assert_eq!(free_memory(100, &pages, 4), 76);
    let purge = VmPageCounts { active: 1, inactive: 0, wire: 0, speculative: 0, purgeable: 9 };
    assert_eq!(free_memory(100, &purge, 4), 100);
    let big = VmPageCounts { active: u32::MAX, inactive: u32::MAX, wire: 0, speculative: 0, purgeable: 0 };
    assert_eq!(free_memory(100, &big, u64::MAX), 0);
}

#[test]
fn uptime_from_boot_time() {
    assert_eq!(uptime_seconds(Some(100), 160), 60);
    assert_eq!(uptime_seconds(Some(200), 160), 0);
    assert_eq!(uptime_seconds(None, 160), 0);
    assert_eq!(uptime_seconds(Some(i64::MIN), i64::MAX), u64::MAX);
}

#[test]
fn disks_refresh_by_position() {
    let mut s = System::new(4096, 0);
    let d = |n: &str, a: u64| Disk {
        name: n.to_string(),
        mount_point: format!("/{}", n),
        total_space: 1000,
        available_space: a,
    };
    s.refresh_disk_list(vec![d("a", 10), d("b", 20)]);
    s.refresh_disks(&vec![None, Some(5)]);
    assert_eq!(s.get_disks()[0].available_space, 10);
    assert_eq!(s.get_disks()[1].available_space, 5);
    s.refresh_disks(&vec![Some(1)]);
    assert_eq!(s.get_disks()[0].available_space, 1);
    assert_eq!(s.get_disks()[1].available_space, 5);
}

#[test]
fn components_list_and_readings() {
    let mut s = System::new(4096, 0);
    let c = |n: &str, t: i64| Component {
        label: n.to_string(),
        temperature: t,
        max: t,
        critical: Some(100_000),
    };
    s.refresh_component_list(vec![Some(c("cpu", 40_000)), None, Some(c("gpu", 50_000))]);
    let names: Vec<_> = s.get_components_list().iter().map(|x| x.label.clone()).collect();
    assert_eq!(names, vec!["cpu".to_string(), "gpu".to_string()]);
    s.refresh_temperatures(&vec![Some(45_000), None]);
    assert_eq!(s.get_components_list()[0].temperature, 45_000);
    assert_eq!(s.get_components_list()[0].max, 45_000);
    assert_eq!(s.get_components_list()[1].temperature, 50_000);
    s.refresh_temperatures(&vec![Some(41_000), Some(52_000)]);
    assert_eq!(s.get_components_list()[0].temperature, 41_000);
    assert_eq!(s.get_components_list()[0].max, 45_000);
    assert_eq!(s.get_components_list()[1].max, 52_000);
}

#[test]
fn fresh_system_is_empty() {
    let s = System::new(16384, 12);
    assert_eq!(s.get_page_size_kb(), 16);
    assert_eq!(s.get_uptime(), 12);
    assert!(s.get_processor_list().is_empty());
    assert!(s.get_process_list().is_empty());
    assert_eq!(s.get_network().get_income(), 0);
    assert_eq!(s.get_used_memory(), 0);
}

#[test]
fn system_network_scenario() {
    let mut s = System::new(4096, 0);
    s.refresh_network(Some((1000, 500)));
    s.refresh_network(Some((1500, 800)));
    assert_eq!(s.get_network().get_income(), 500);
    assert_eq!(s.get_network().get_outcome(), 300);
}
