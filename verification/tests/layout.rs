use linkme::layout::{emission_plan, merge_fragments, place_section, Fragment, Partition};
use linkme::platform::Platform;

fn unit(lead: Vec<u32>, body: Vec<u32>, trail: Vec<u32>) -> Vec<Fragment<u32>> {
    vec![
        Fragment { partition: Partition::Lead, elements: lead },
        Fragment { partition: Partition::Body, elements: body },
        Fragment { partition: Partition::Trail, elements: trail },
    ]
}

#[test]
fn plan_always_retains() {
    for p in [
        Platform::Linux,
        Platform::FreeBsd,
        Platform::MacOs,
        Platform::Windows,
        Platform::Illumos,
    ] {
        assert!(emission_plan(p, false).retain);
        assert!(emission_plan(p, true).retain);
    }
}

#[test]
fn plan_placeholder_only_for_possibly_empty_macho() {
    assert!(emission_plan(Platform::MacOs, true).empty_placeholder);
    assert!(!emission_plan(Platform::MacOs, false).empty_placeholder);
    assert!(!emission_plan(Platform::Linux, true).empty_placeholder);
    assert!(!emission_plan(Platform::Windows, true).empty_placeholder);
}

#[test]
fn plan_markers_only_for_coff() {
    assert!(emission_plan(Platform::Windows, false).subsection_markers);
    assert!(emission_plan(Platform::Windows, true).subsection_markers);
    assert!(!emission_plan(Platform::Linux, false).subsection_markers);
    assert!(!emission_plan(Platform::MacOs, false).subsection_markers);
    assert!(!emission_plan(Platform::Illumos, false).subsection_markers);
}

#[test]
fn merge_orders_partitions_ascending() {
    // Two compilation units, their fragments interleaved in link order.
    let mut frags = unit(vec![91], vec![1, 2], vec![95]);
    frags.extend(unit(vec![92], vec![3], vec![96]));
    let merged = merge_fragments(&frags);
    // Lead block, then every body contribution in link order, then trail.
    assert_eq!(merged, vec![91, 92, 1, 2, 3, 95, 96]);
}

#[test]
fn merge_counts_every_element_once() {
    // N = 5 elements across M = 3 units.
    let mut frags: Vec<Fragment<u32>> = Vec::new();
    frags.push(Fragment { partition: Partition::Body, elements: vec![1, 2] });
    frags.push(Fragment { partition: Partition::Body, elements: vec![] });
    frags.push(Fragment { partition: Partition::Body, elements: vec![3, 4, 5] });
    let merged = merge_fragments(&frags);
    assert_eq!(merged.len(), 5);
    assert_eq!(merged, vec![1, 2, 3, 4, 5]);
}

#[test]
fn merge_of_nothing_is_empty() {
    let frags: Vec<Fragment<u32>> = Vec::new();
    assert_eq!(merge_fragments(&frags), Vec::<u32>::new());
}

#[test]
fn rebuild_from_unchanged_fragments_is_stable() {
    let mut frags = unit(vec![], vec![7, 8, 9], vec![]);
    frags.extend(unit(vec![], vec![10], vec![]));
    let first = merge_fragments(&frags);
    let second = merge_fragments(&frags);
    assert_eq!(first, second);
}

#[test]
fn place_section_lays_out_gap_free() {
    let s = place_section(0x1000, 8, vec![1u64, 2, 3]).unwrap();
    assert_eq!(s.start, 0x1000);
    assert_eq!(s.stop_addr(), 0x1000 + 3 * 8);
}

#[test]
fn place_section_rejects_zero_sized_elements() {
    assert!(place_section(0x1000, 0, vec![1u64]).is_none());
}

#[test]
fn place_section_rejects_runs_past_address_space() {
    assert!(place_section(usize::MAX - 8, 8, vec![1u64, 2]).is_none());
    assert!(place_section(usize::MAX - 16, 8, vec![1u64, 2]).is_some());
}
