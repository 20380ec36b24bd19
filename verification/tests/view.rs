use linkme::layout::{merge_fragments, place_section, Fragment, Partition};
use linkme::view::{boundary_len, try_view, view_of_section, LayoutError, ViewOnce};

#[test]
fn empty_collection_yields_valid_view() {
    let v = try_view(0x2000, 0x2000, 8, Vec::<u64>::new()).unwrap();
    assert_eq!(v.len(), 0);
    assert!(v.is_empty());
    assert_eq!(v.ptr(), 0x2000);
    assert_eq!(v.stop(), 0x2000);
}

#[test]
fn count_matches_contributions_across_units() {
    // N = 4 elements from M = 3 compilation units, merged and placed.
    let frags = vec![
        Fragment { partition: Partition::Body, elements: vec![11u64] },
        Fragment { partition: Partition::Body, elements: vec![22, 33] },
        Fragment { partition: Partition::Body, elements: vec![44] },
    ];
    let merged = merge_fragments(&frags);
    let section = place_section(0x4000, 8, merged).unwrap();
    let stop = section.stop_addr();
    let v = view_of_section(section);
    assert_eq!(v.len(), 4);
    assert_eq!(v.ptr(), 0x4000);
    assert_eq!(v.stop(), stop);
}

#[test]
fn indexing_in_range_returns_declared_values() {
    let v = try_view(0, 24, 8, vec![5u64, 6, 7]).unwrap();
    assert_eq!(*v.get(0).unwrap(), 5);
    assert_eq!(*v.get(1).unwrap(), 6);
    assert_eq!(*v.get(2).unwrap(), 7);
}

#[test]
fn indexing_at_length_or_beyond_is_out_of_range() {
    let v = try_view(0, 24, 8, vec![5u64, 6, 7]).unwrap();
    let e = v.get(3).unwrap_err();
    assert_eq!(e.index, 3);
    assert_eq!(e.len, 3);
    assert!(v.get(100).is_err());
}

#[test]
fn element_addresses_lie_between_boundaries() {
    let v = try_view(0x1000, 0x1000 + 32, 8, vec![1u64, 2, 3, 4]).unwrap();
    assert_eq!(v.element_addr(0).unwrap(), 0x1000);
    assert_eq!(v.element_addr(3).unwrap(), 0x1000 + 24);
    assert!(v.element_addr(4).is_err());
}

#[test]
fn slicing_off_the_first_element() {
    let v = try_view(0x1000, 0x1000 + 24, 8, vec![5u64, 6, 7]).unwrap();
    let tail = v.slice_from(1).unwrap();
    assert_eq!(tail.len(), 2);
    assert_eq!(tail.ptr(), 0x1000 + 8);
    assert_eq!(tail.stop(), v.stop());
    assert_eq!(*tail.get(0).unwrap(), 6);
    assert_eq!(*tail.get(1).unwrap(), 7);
}

#[test]
fn slicing_at_length_yields_the_empty_tail() {
    let v = try_view(0x1000, 0x1000 + 24, 8, vec![5u64, 6, 7]).unwrap();
    let empty = v.slice_from(3).unwrap();
    assert_eq!(empty.len(), 0);
    assert_eq!(empty.ptr(), v.stop());
    let e = v.slice_from(4).unwrap_err();
    assert_eq!(e.index, 4);
    assert_eq!(e.len, 3);
}

#[test]
fn forward_iteration_sees_every_element_in_order() {
    let v = try_view(0, 32, 8, vec![2u64, 4, 6, 8]).unwrap();
    let mut seen = Vec::new();
    for e in v.as_slice() {
        seen.push(*e);
    }
    assert_eq!(seen, vec![2, 4, 6, 8]);
}

#[test]
fn boundary_len_divides_exactly() {
    assert_eq!(boundary_len(100, 124, 8), Ok(3));
    assert_eq!(boundary_len(100, 100, 8), Ok(0));
}

#[test]
fn zero_element_size_is_a_violation() {
    assert_eq!(boundary_len(0, 8, 0), Err(LayoutError::ZeroElementSize));
    assert_eq!(
        try_view(0, 8, 0, vec![1u64]).unwrap_err(),
        LayoutError::ZeroElementSize
    );
}

#[test]
fn inverted_bounds_are_a_violation() {
    assert_eq!(boundary_len(200, 100, 8), Err(LayoutError::InvertedBounds));
    assert_eq!(
        try_view(200, 100, 8, Vec::<u64>::new()).unwrap_err(),
        LayoutError::InvertedBounds
    );
}

#[test]
fn uneven_span_is_a_violation() {
    assert_eq!(boundary_len(100, 103, 8), Err(LayoutError::UnevenSpan));
    assert_eq!(
        try_view(100, 103, 8, Vec::<u64>::new()).unwrap_err(),
        LayoutError::UnevenSpan
    );
}

#[test]
fn count_mismatch_is_a_violation() {
    assert_eq!(
        try_view(100, 116, 8, vec![1u64, 2, 3]).unwrap_err(),
        LayoutError::CountMismatch
    );
}

#[test]
fn first_initialization_caches_the_view() {
    let mut once: ViewOnce<u64> = ViewOnce::new();
    assert!(once.get().is_none());
    once.init(0x3000, 0x3000 + 16, 8, vec![1, 2]).unwrap();
    let v = once.get().unwrap();
    assert_eq!(v.ptr(), 0x3000);
    assert_eq!(v.len(), 2);
}

#[test]
fn later_initializations_observe_the_first_result() {
    let mut once: ViewOnce<u64> = ViewOnce::new();
    once.init(0x3000, 0x3000 + 16, 8, vec![1, 2]).unwrap();
    // A later call with different boundaries changes nothing and succeeds.
    once.init(0x9000, 0x9000 + 8, 8, vec![9]).unwrap();
    let v = once.get().unwrap();
    assert_eq!(v.ptr(), 0x3000);
    assert_eq!(v.len(), 2);
    assert_eq!(*v.get(0).unwrap(), 1);
}

#[test]
fn failed_initialization_leaves_the_gate_empty() {
    let mut once: ViewOnce<u64> = ViewOnce::new();
    let e = once.init(100, 103, 8, vec![]).unwrap_err();
    assert_eq!(e, LayoutError::UnevenSpan);
    assert!(once.get().is_none());
    // A well-formed retry after a violation still works.
    once.init(100, 108, 8, vec![7]).unwrap();
    assert_eq!(once.get().unwrap().len(), 1);
}

#[test]
fn views_of_equal_inputs_are_identical() {
    let a = try_view(0x5000, 0x5000 + 24, 8, vec![1u64, 2, 3]).unwrap();
    let b = try_view(0x5000, 0x5000 + 24, 8, vec![1u64, 2, 3]).unwrap();
    assert_eq!(a.ptr(), b.ptr());
    assert_eq!(a.len(), b.len());
    assert_eq!(a.element_size(), b.element_size());
    for i in 0..a.len() {
        assert_eq!(a.get(i).unwrap(), b.get(i).unwrap());
    }
}
