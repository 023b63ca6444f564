use container_telemetry::metrics::{
    block_totals, classify, classify_lowered, compute, compute_checked, cpu_percentage,
    memory_percentage, network_totals, BlockIoEntry, ContainerStats, InterfaceCounters,
    OperationKind, Percentage, RawCounterSnapshot,
};

fn empty_snapshot() -> RawCounterSnapshot {
    RawCounterSnapshot {
        cpu_total_usage: None,
        system_cpu_usage: None,
        online_cpu_count: None,
        memory_usage: None,
        memory_limit: None,
        interfaces: Vec::new(),
        block_io: Vec::new(),
    }
}

fn interface(name: &str, rx: Option<u64>, tx: Option<u64>) -> InterfaceCounters {
    InterfaceCounters { name: name.to_string(), rx_bytes: rx, tx_bytes: tx }
}

fn entry(op: Option<&str>, value: Option<u64>) -> BlockIoEntry {
    BlockIoEntry { op: op.map(|s| s.to_string()), value }
}

fn as_float(p: Percentage) -> f64 {
    p.numerator as f64 / p.denominator as f64
}

#[test]
fn cpu_percentage_follows_the_formula() {
    let mut current = empty_snapshot();
    current.cpu_total_usage = Some(400);
    current.system_cpu_usage = Some(2000);
    current.online_cpu_count = Some(4);
    let mut previous = empty_snapshot();
    previous.cpu_total_usage = Some(200);
    previous.system_cpu_usage = Some(1000);
    let p = cpu_percentage(&current, &previous);
    assert_eq!(p, Percentage { numerator: 200 * 4 * 100, denominator: 1000 });
    assert_eq!(as_float(p), 80.0);
}

#[test]
fn cpu_percentage_defaults_to_one_cpu() {
    let mut current = empty_snapshot();
    current.cpu_total_usage = Some(150);
    current.system_cpu_usage = Some(1200);
    let mut previous = empty_snapshot();
    previous.cpu_total_usage = Some(100);
    previous.system_cpu_usage = Some(1000);
    let p = cpu_percentage(&current, &previous);
    assert_eq!(p, Percentage { numerator: 5000, denominator: 200 });
    assert_eq!(as_float(p), 25.0);
}

#[test]
fn cpu_percentage_is_zero_without_system_progress() {
    let mut current = empty_snapshot();
    current.cpu_total_usage = Some(400);
    current.system_cpu_usage = Some(1000);
    current.online_cpu_count = Some(8);
    let mut previous = empty_snapshot();
    previous.cpu_total_usage = Some(200);
    previous.system_cpu_usage = Some(1000);
    let p = cpu_percentage(&current, &previous);
    assert_eq!(p, Percentage { numerator: 0, denominator: 1 });
    assert_eq!(as_float(p), 0.0);
}

#[test]
fn cpu_percentage_is_zero_after_a_counter_reset() {
    let mut current = empty_snapshot();
    current.cpu_total_usage = Some(10);
    current.system_cpu_usage = Some(5000);
    let mut previous = empty_snapshot();
    previous.cpu_total_usage = Some(200);
    previous.system_cpu_usage = Some(1000);
    assert_eq!(cpu_percentage(&current, &previous), Percentage { numerator: 0, denominator: 1 });
    let mut backwards = empty_snapshot();
    backwards.cpu_total_usage = Some(300);
    backwards.system_cpu_usage = Some(900);
    assert_eq!(cpu_percentage(&backwards, &previous), Percentage { numerator: 0, denominator: 1 });
}

#[test]
fn cpu_percentage_is_zero_when_nothing_is_reported() {
    let current = empty_snapshot();
    let previous = empty_snapshot();
    assert_eq!(cpu_percentage(&current, &previous), Percentage { numerator: 0, denominator: 1 });
}

#[test]
fn cpu_percentage_with_absent_previous_counts_from_zero() {
    let mut current = empty_snapshot();
    current.cpu_total_usage = Some(50);
    current.system_cpu_usage = Some(100);
    current.online_cpu_count = Some(2);
    let previous = empty_snapshot();
    let p = cpu_percentage(&current, &previous);
    assert_eq!(p, Percentage { numerator: 50 * 2 * 100, denominator: 100 });
    assert_eq!(as_float(p), 100.0);
}

#[test]
fn cpu_percentage_takes_the_largest_counters() {
    let mut current = empty_snapshot();
    current.cpu_total_usage = Some(u64::MAX);
    current.system_cpu_usage = Some(u64::MAX);
    current.online_cpu_count = Some(u32::MAX);
    let previous = empty_snapshot();
    let p = cpu_percentage(&current, &previous);
    assert_eq!(p.numerator, u64::MAX as u128 * u32::MAX as u128 * 100);
    assert_eq!(p.denominator, u64::MAX);
}

#[test]
fn memory_percentage_of_half_the_limit() {
    let mut current = empty_snapshot();
    current.memory_usage = Some(512);
    current.memory_limit = Some(1024);
    let p = memory_percentage(&current);
    assert_eq!(p, Percentage { numerator: 51200, denominator: 1024 });
    assert_eq!(as_float(p), 50.0);
}

#[test]
fn memory_limit_of_zero_counts_as_one() {
    let mut current = empty_snapshot();
    current.memory_usage = Some(100);
    current.memory_limit = Some(0);
    let p = memory_percentage(&current);
    assert_eq!(p, Percentage { numerator: 10000, denominator: 1 });
    assert_eq!(as_float(p), 10000.0);
}

#[test]
fn memory_limit_defaults_to_one() {
    let mut current = empty_snapshot();
    current.memory_usage = Some(3);
    let p = memory_percentage(&current);
    assert_eq!(p, Percentage { numerator: 300, denominator: 1 });
    let stats = compute(&current, &empty_snapshot());
    assert_eq!(stats.memory_usage, 3);
    assert_eq!(stats.memory_limit, 1);
}

#[test]
fn memory_usage_above_the_limit_is_reported_as_it_is() {
    let mut current = empty_snapshot();
    current.memory_usage = Some(300);
    current.memory_limit = Some(200);
    let p = memory_percentage(&current);
    assert_eq!(as_float(p), 150.0);
}

#[test]
fn reported_memory_limit_of_zero_stays_zero() {
    let mut current = empty_snapshot();
    current.memory_usage = Some(7);
    current.memory_limit = Some(0);
    let stats = compute(&current, &empty_snapshot());
    assert_eq!(stats.memory_limit, 0);
    assert_eq!(stats.memory_percentage, Percentage { numerator: 700, denominator: 1 });
}

#[test]
fn network_totals_sum_every_interface() {
    let interfaces = vec![
        interface("eth0", Some(100), Some(10)),
        interface("eth1", Some(200), None),
        interface("lo", None, Some(5)),
    ];
    assert_eq!(network_totals(&interfaces), (300, 15));
}

#[test]
fn network_totals_do_not_depend_on_order() {
    let a = vec![
        interface("eth0", Some(100), Some(10)),
        interface("eth1", Some(200), Some(20)),
        interface("lo", Some(7), Some(9)),
    ];
    let b = vec![a[2].clone(), a[0].clone(), a[1].clone()];
    let c = vec![a[1].clone(), a[2].clone(), a[0].clone()];
    assert_eq!(network_totals(&a), (307, 39));
    assert_eq!(network_totals(&b), network_totals(&a));
    assert_eq!(network_totals(&c), network_totals(&a));
}

#[test]
fn totals_of_no_entries_are_zero() {
    assert_eq!(network_totals(&Vec::new()), (0, 0));
    assert_eq!(block_totals(&Vec::new()), (0, 0));
    let stats = compute(&empty_snapshot(), &empty_snapshot());
    assert_eq!(stats.network_rx, 0);
    assert_eq!(stats.network_tx, 0);
    assert_eq!(stats.block_read, 0);
    assert_eq!(stats.block_write, 0);
}

#[test]
fn block_totals_match_labels_without_regard_to_case() {
    let entries = vec![
        entry(Some("read"), Some(10)),
        entry(Some("WRITE"), Some(5)),
        entry(Some("sync"), Some(99)),
    ];
    assert_eq!(block_totals(&entries), (10, 5));
}

#[test]
fn block_totals_do_not_depend_on_order() {
    let a = vec![
        entry(Some("Read"), Some(10)),
        entry(Some("Write"), Some(5)),
        entry(Some("read"), Some(1)),
        entry(Some("total"), Some(16)),
    ];
    let b = vec![a[3].clone(), a[2].clone(), a[1].clone(), a[0].clone()];
    assert_eq!(block_totals(&a), (11, 5));
    assert_eq!(block_totals(&b), block_totals(&a));
}

#[test]
fn block_entries_without_label_or_value() {
    let entries = vec![
        entry(None, Some(1000)),
        entry(Some("read"), None),
        entry(Some("write"), Some(3)),
    ];
    assert_eq!(block_totals(&entries), (0, 3));
}

#[test]
fn classify_tells_the_kinds_apart() {
    assert_eq!(classify(&entry(Some("read"), None)), OperationKind::Read);
    assert_eq!(classify(&entry(Some("READ"), None)), OperationKind::Read);
    assert_eq!(classify(&entry(Some("Write"), None)), OperationKind::Write);
    assert_eq!(classify(&entry(Some("wRiTe"), None)), OperationKind::Write);
    assert_eq!(classify(&entry(Some("sync"), None)), OperationKind::Other);
    assert_eq!(classify(&entry(Some(" read"), None)), OperationKind::Other);
    assert_eq!(classify(&entry(Some(""), None)), OperationKind::Other);
    assert_eq!(classify(&entry(None, None)), OperationKind::Other);
}

#[test]
fn classify_lowered_is_exact() {
    assert_eq!(classify_lowered("read"), OperationKind::Read);
    assert_eq!(classify_lowered("write"), OperationKind::Write);
    assert_eq!(classify_lowered("READ"), OperationKind::Other);
    assert_eq!(classify_lowered("reads"), OperationKind::Other);
    assert_eq!(classify_lowered(""), OperationKind::Other);
}

#[test]
fn compute_puts_the_figures_together() {
    let current = RawCounterSnapshot {
        cpu_total_usage: Some(3_000),
        system_cpu_usage: Some(20_000),
        online_cpu_count: Some(2),
        memory_usage: Some(256),
        memory_limit: Some(1024),
        interfaces: vec![interface("eth0", Some(11), Some(22)), interface("eth1", Some(1), Some(2))],
        block_io: vec![entry(Some("Read"), Some(40)), entry(Some("Write"), Some(2))],
    };
    let mut previous = empty_snapshot();
    previous.cpu_total_usage = Some(1_000);
    previous.system_cpu_usage = Some(10_000);
    let stats = compute(&current, &previous);
    assert_eq!(
        stats,
        ContainerStats {
            cpu_percentage: Percentage { numerator: 2_000 * 2 * 100, denominator: 10_000 },
            memory_usage: 256,
            memory_limit: 1024,
            memory_percentage: Percentage { numerator: 25_600, denominator: 1024 },
            network_rx: 12,
            network_tx: 24,
            block_read: 40,
            block_write: 2,
        }
    );
    assert_eq!(as_float(stats.cpu_percentage), 40.0);
    assert_eq!(as_float(stats.memory_percentage), 25.0);
    assert_eq!(compute_checked(&current, &previous), Some(stats));
}

#[test]
fn compute_ignores_the_entries_of_the_previous_snapshot() {
    let mut current = empty_snapshot();
    current.interfaces = vec![interface("eth0", Some(1), Some(2))];
    let mut previous = empty_snapshot();
    previous.interfaces = vec![interface("eth0", Some(1000), Some(2000))];
    previous.block_io = vec![entry(Some("read"), Some(5))];
    previous.memory_usage = Some(9);
    let stats = compute(&current, &previous);
    assert_eq!(stats.network_rx, 1);
    assert_eq!(stats.network_tx, 2);
    assert_eq!(stats.block_read, 0);
    assert_eq!(stats.memory_usage, 0);
}

#[test]
fn compute_checked_refuses_totals_that_do_not_fit() {
    let mut current = empty_snapshot();
    current.interfaces = vec![interface("eth0", Some(u64::MAX), None), interface("eth1", Some(1), None)];
    assert_eq!(network_totals(&current.interfaces), (u64::MAX as u128 + 1, 0));
    assert_eq!(compute_checked(&current, &empty_snapshot()), None);

    let mut writes = empty_snapshot();
    writes.block_io = vec![entry(Some("write"), Some(u64::MAX)), entry(Some("WRITE"), Some(u64::MAX))];
    assert_eq!(compute_checked(&writes, &empty_snapshot()), None);
}

#[test]
fn compute_checked_takes_totals_that_just_fit() {
    let mut current = empty_snapshot();
    current.interfaces = vec![interface("eth0", Some(u64::MAX - 1), Some(u64::MAX)), interface("eth1", Some(1), Some(0))];
    let stats = compute_checked(&current, &empty_snapshot()).unwrap();
    assert_eq!(stats.network_rx, u64::MAX);
    assert_eq!(stats.network_tx, u64::MAX);
}
