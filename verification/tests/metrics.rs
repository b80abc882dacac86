use ktop::panel::{SystemPanel, CPU_HISTORY_LEN};
use ktop::source::DataSnapshot;
use ktop::system::{aggregate_disks, cpu_mean, usage_permille, SystemSnapshot};

fn snapshot_with_cpu(cpu: Vec<u64>) -> DataSnapshot {
    DataSnapshot::System(SystemSnapshot {
        cpu_usages: cpu,
        total_memory: 0,
        used_memory: 0,
        total_disk: 0,
        used_disk: 0,
    })
}

#[test]
fn mean_of_empty_sequence_is_zero() {
    let empty: Vec<u64> = Vec::new();
    assert_eq!(cpu_mean(&empty), 0);
}

#[test]
fn mean_is_exact_integer_division() {
    assert_eq!(cpu_mean(&vec![1, 2, 4]), 2);
    assert_eq!(cpu_mean(&vec![1000, 2000]), 1500);
    assert_eq!(cpu_mean(&vec![10000]), 10000);
    assert_eq!(cpu_mean(&vec![u64::MAX, u64::MAX]), u64::MAX);
}

#[test]
fn history_keeps_only_the_newest_sixty() {
    let mut panel = SystemPanel::new();
    for k in 1..=61u64 {
        panel.on_data(&snapshot_with_cpu(vec![k]));
    }
    assert_eq!(panel.cpu_history.len(), CPU_HISTORY_LEN);
    let expected: Vec<u64> = (2..=61).collect();
    assert_eq!(panel.cpu_history, expected);
}

#[test]
fn history_grows_one_per_snapshot_until_capacity() {
    let mut panel = SystemPanel::new();
    for k in 1..=60u64 {
        panel.on_data(&snapshot_with_cpu(vec![k]));
        assert_eq!(panel.cpu_history.len(), k as usize);
    }
    let expected: Vec<u64> = (1..=60).collect();
    assert_eq!(panel.cpu_history, expected);
}

#[test]
fn empty_cpu_snapshot_records_a_zero_mean() {
    let mut panel = SystemPanel::new();
    panel.on_data(&snapshot_with_cpu(Vec::new()));
    assert_eq!(panel.cpu_history, vec![0]);
}

#[test]
fn panel_ignores_repository_snapshots() {
    let mut panel = SystemPanel::new();
    panel.on_data(&snapshot_with_cpu(vec![4200]));
    let git = DataSnapshot::Git(ktop::git::GitSnapshot { repos: Vec::new() });
    panel.on_data(&git);
    assert_eq!(panel.cpu_history, vec![4200]);
    assert_eq!(panel.snapshot.cpu_usages, vec![4200]);
}

#[test]
fn zero_total_reports_zero_usage() {
    assert_eq!(usage_permille(0, 0), 0);
    assert_eq!(usage_permille(12345, 0), 0);
}

#[test]
fn usage_share_is_exact_and_clamped() {
    assert_eq!(usage_permille(1, 2), 500);
    assert_eq!(usage_permille(1, 4), 250);
    assert_eq!(usage_permille(3, 3), 1000);
    assert_eq!(usage_permille(5, 4), 1000);
    assert_eq!(usage_permille(u64::MAX, u64::MAX), 1000);
    assert_eq!(usage_permille(u64::MAX, 1), 1000);
}

#[test]
fn disk_figures_sum_over_volumes() {
    let totals: Vec<u64> = vec![100, 200];
    let avail: Vec<u64> = vec![40, 50];
    assert_eq!(aggregate_disks(&totals, &avail), (300, 210));
}

#[test]
fn disk_with_more_available_than_capacity_counts_as_free() {
    let totals: Vec<u64> = vec![100];
    let avail: Vec<u64> = vec![150];
    assert_eq!(aggregate_disks(&totals, &avail), (100, 0));
}

#[test]
fn disk_sums_saturate_instead_of_wrapping() {
    let totals: Vec<u64> = vec![u64::MAX, 10];
    let avail: Vec<u64> = vec![0, 0];
    assert_eq!(aggregate_disks(&totals, &avail), (u64::MAX, u64::MAX));
}
