use micro_oc::args::ArgError;
use micro_oc::commands::{
    memclock_writes, plan_set, reset_deltas, ClockDelta, ClockDomain, ClockWrite,
};
use micro_oc::listing::{list_rows, list_titles, GpuSummary};

fn texts(items: &[&str]) -> Vec<String> {
    items.iter().map(|s| s.to_string()).collect()
}

fn memory(gpu: usize, khz: i32) -> ClockWrite {
    ClockWrite { gpu, delta: ClockDelta { domain: ClockDomain::Memory, khz } }
}

#[test]
fn set_writes_memclock_per_selected_gpu() {
    let r = plan_set(&texts(&["1", "0"]), &Some(texts(&["500", "-200"])), 2);
    assert_eq!(r, Ok(vec![memory(1, 500), memory(0, -200)]));
}

#[test]
fn set_without_memclock_writes_nothing() {
    assert_eq!(plan_set(&texts(&["0"]), &None, 1), Ok(vec![]));
}

#[test]
fn set_needs_one_memclock_value_per_gpu() {
    assert_eq!(
        plan_set(&texts(&["0", "1"]), &Some(texts(&["500"])), 2),
        Err(ArgError::WrongNumberOfValues { got: 1, expected: 2 })
    );
}

#[test]
fn set_checks_selection_before_values() {
    assert_eq!(
        plan_set(&texts(&["4"]), &Some(texts(&["x", "y"])), 2),
        Err(ArgError::IndexOutOfRange { position: 0, index: 4 })
    );
    assert_eq!(plan_set(&texts(&[]), &None, 2), Err(ArgError::MissingIds));
}

#[test]
fn set_reports_bad_memclock_value() {
    assert_eq!(
        plan_set(&texts(&["0"]), &Some(texts(&["fast"])), 1),
        Err(ArgError::InvalidValue { position: 0 })
    );
}

#[test]
fn memclock_writes_pair_gpus_with_values() {
    assert_eq!(memclock_writes(&vec![3, 1], &vec![7, -7]), vec![memory(3, 7), memory(1, -7)]);
    assert_eq!(memclock_writes(&vec![], &vec![]), vec![]);
}

#[test]
fn reset_zeroes_graphics_and_memory() {
    assert_eq!(
        reset_deltas(),
        vec![
            ClockDelta { domain: ClockDomain::Graphics, khz: 0 },
            ClockDelta { domain: ClockDomain::Memory, khz: 0 },
        ]
    );
}

#[test]
fn listing_has_four_titles() {
    assert_eq!(list_titles(), vec!["GPU Index", "Name", "Vendor", "Device ID"]);
}

#[test]
fn listing_labels_each_gpu_by_index() {
    let gpus: Vec<GpuSummary> = (0..11u32)
        .map(|i| GpuSummary {
            name: format!("Card {}", i),
            vendor: "Vendor".to_string(),
            device_id: 0x1b80 + i,
        })
        .collect();
    let rows = list_rows(&gpus);
    assert_eq!(rows.len(), 11);
    assert_eq!(rows[0].label, "GPU #0");
    assert_eq!(rows[10].label, "GPU #10");
    assert_eq!(rows[10].name, "Card 10");
    assert_eq!(rows[10].vendor, "Vendor");
    assert_eq!(rows[10].device_id, 0x1b8a);
}

#[test]
fn listing_of_no_gpus_is_empty() {
    assert!(list_rows(&vec![]).is_empty());
}
