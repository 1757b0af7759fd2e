use branded::{Container, Seal, Signed};

#[test]
fn midpoint_bias_span_seven() {
    let container = Container::new(vec![0u32; 7]);
    let full = container.range();
    assert_eq!(full.upper_middle().integer(), 3);
    let (left, right) = full.split_in_half();
    assert_eq!((left.start(), left.end()), (0, 3));
    assert_eq!((right.start(), right.end()), (3, 7));
}

#[test]
fn midpoint_bias_span_six() {
    let container = Container::new(vec![0u32; 6]);
    let full = container.range();
    assert_eq!(full.upper_middle().integer(), 3);
    let (left, right) = full.split_in_half();
    assert_eq!((left.start(), left.end()), (0, 3));
    assert_eq!((right.start(), right.end()), (3, 6));
}

#[test]
fn midpoint_bias_span_one() {
    let container = Container::new(vec![9u32]);
    let full = container.range();
    assert_eq!(full.upper_middle().integer(), 0);
    let (left, right) = full.split_in_half();
    assert_eq!(left.len(), 0);
    assert!(left.is_empty());
    assert_eq!((right.start(), right.end()), (0, 1));
}

#[test]
fn swap_same_index_is_identity() {
    let mut container = Container::new(vec![10, 20, 30]);
    let full = container.range().nonempty().unwrap();
    let a = full.contains(1).unwrap();
    container.swap(a, a);
    assert_eq!(container.as_slice(), &[10, 20, 30]);
}

#[test]
fn swap_exchanges_and_restores() {
    let mut container = Container::new(vec![10, 20, 30]);
    let full = container.range().nonempty().unwrap();
    let a = full.contains(1).unwrap();
    let b = full.last();
    container.swap(a, b);
    assert_eq!(container.as_slice(), &[10, 30, 20]);
    container.swap(b, a);
    assert_eq!(container.as_slice(), &[10, 20, 30]);
    let first = full.first();
    container.swap(first, b);
    assert_eq!(container.as_slice(), &[30, 20, 10]);
}

#[test]
fn split_round_trip_every_cut() {
    let data = vec![1, 2, 3, 4, 5];
    let container = Container::new(data.clone());
    let full = container.range().nonempty().unwrap();
    for i in 0..data.len() {
        let idx = full.contains(i).unwrap();
        let (left, right) = container.split_at(idx);
        assert_eq!(left.len(), i);
        assert_eq!(left.len() + right.len(), data.len());
        let mut joined = left.as_slice().to_vec();
        joined.extend_from_slice(right.as_slice());
        assert_eq!(joined, data);
    }
    let one_past = full.last().after();
    let (left, right) = container.split_at(one_past);
    assert_eq!(left.as_slice(), &[1, 2, 3, 4, 5]);
    assert!(right.is_empty());
}

#[test]
fn split_at_mut_preserves_lengths_and_order() {
    let container = Container::new(vec![7u8, 8, 9, 10]);
    let full = container.range().nonempty().unwrap();
    let idx = full.contains(1).unwrap();
    let (left, right) = container.split_at_mut(idx);
    assert_eq!(left.len(), 1);
    assert_eq!(right.len(), 3);
    assert_eq!(left.as_slice(), &[7]);
    assert_eq!(right.as_slice(), &[8, 9, 10]);
}

#[test]
fn scan_from_rev_collects_matching_prefix() {
    let container = Container::new(vec![1, 2, 3, 4, 5, 6, 7]);
    let full = container.range().nonempty().unwrap();
    let mid = full.upper_middle();
    assert_eq!(mid.integer(), 3);
    let scanned = container.scan_from_rev(mid, |x| *x >= 2);
    assert_eq!((scanned.start(), scanned.end()), (1, 4));
    assert_eq!(container.slice_of(scanned), &[2, 3, 4]);
}

#[test]
fn scan_from_stops_at_container_end() {
    let container = Container::new(vec![1, 2]);
    let full = container.range().nonempty().unwrap();
    let last = full.last();
    let scanned = container.scan_from(last, |_| true);
    assert_eq!((scanned.start(), scanned.end()), (1, 2));
}

#[test]
fn scan_from_extends_while_predicate_holds() {
    let container = Container::new(vec![4, 1, 1, 9, 1]);
    let full = container.range().nonempty().unwrap();
    let first = full.first();
    let scanned = container.scan_from(first, |x| *x < 2);
    assert_eq!((scanned.start(), scanned.end()), (0, 3));
    assert_eq!(container.slice_of(scanned), &[4, 1, 1]);
}

#[test]
fn advance_keeps_span_nonempty() {
    let container = Container::new(vec![0u8; 3]);
    let mut span = container.range().nonempty().unwrap();
    assert!(span.advance());
    assert_eq!((span.start(), span.end()), (1, 3));
    assert!(span.advance());
    assert_eq!((span.start(), span.end()), (2, 3));
    assert!(!span.advance());
    assert_eq!((span.start(), span.end()), (2, 3));
}

#[test]
fn advance_back_keeps_span_nonempty() {
    let container = Container::new(vec![0u8; 3]);
    let mut span = container.range().nonempty().unwrap();
    assert!(span.advance_back());
    assert_eq!((span.start(), span.end()), (0, 2));
    assert!(span.advance_back());
    assert_eq!((span.start(), span.end()), (0, 1));
    assert!(!span.advance_back());
    assert_eq!((span.start(), span.end()), (0, 1));
}

#[test]
fn head_and_tail_trim_one_position() {
    let container = Container::new(vec![0u8; 3]);
    let span = container.range().nonempty().unwrap();
    let tail = span.tail();
    assert_eq!((tail.start(), tail.end()), (1, 3));
    let head = span.head();
    assert_eq!((head.start(), head.end()), (0, 2));
}

#[test]
fn contains_accepts_only_in_span_offsets() {
    let container = Container::new(vec![5, 6, 7, 8]);
    let full = container.range().nonempty().unwrap();
    let (_, upper) = full.split_in_half();
    assert!(upper.contains(1).is_none());
    let inside = upper.contains(2).unwrap();
    assert_eq!(inside.integer(), 2);
    assert_eq!(*container.get(inside), 7);
    assert!(upper.contains(4).is_none());
}

#[test]
fn range_iter_walks_both_ends_without_repeats() {
    let container = Container::new(vec![10, 20, 30, 40]);
    let full = container.range();
    let mut it = full.iter();
    assert_eq!(it.len(), 4);
    let i0 = it.next().unwrap();
    assert_eq!(i0.integer(), 0);
    let i3 = it.next_back().unwrap();
    assert_eq!(i3.integer(), 3);
    let i1 = it.next().unwrap();
    assert_eq!(i1.integer(), 1);
    assert_eq!(it.len(), 1);
    let i2 = it.next_back().unwrap();
    assert_eq!(i2.integer(), 2);
    assert!(it.next().is_none());
    assert!(it.next_back().is_none());
    assert_eq!(*container.get(i2), 30);
}

#[test]
fn get_mut_writes_through_branded_index() {
    let mut container = Container::new(vec![1, 2, 3]);
    let full = container.range().nonempty().unwrap();
    let idx = full.contains(2).unwrap();
    *container.get_mut(idx) = 9;
    assert_eq!(container.as_slice(), &[1, 2, 9]);
}

#[test]
fn nonempty_is_absent_on_empty_storage() {
    let container: Container<u8> = Container::new(vec![]);
    assert!(container.is_empty());
    assert_eq!(container.len(), 0);
    assert!(container.range().nonempty().is_none());
}

#[test]
fn split_first_remainder_of_singleton_is_empty() {
    let container = Container::new(vec![1]);
    let (first, rest) = container.split_first().unwrap();
    assert_eq!(*first, 1);
    assert_eq!(rest.len(), 0);
    assert!(rest.range().nonempty().is_none());
}

#[test]
fn split_at_index_spans_cover_container() {
    let container = Container::new(vec![5, 6, 7, 8]);
    let full = container.range().nonempty().unwrap();
    let idx = full.contains(1).unwrap();
    let (left, right) = container.split_at_index(idx);
    assert_eq!((left.start(), left.end()), (0, 1));
    assert_eq!((right.start(), right.end()), (1, 4));
    assert_eq!(container.slice_of(left), &[5]);
    assert_eq!(container.slice_of(right), &[6, 7, 8]);
}

#[test]
fn split_index_cuts_range_at_index() {
    let container = Container::new(vec![1, 2, 3, 4, 5, 6]);
    let full = container.range().nonempty().unwrap();
    let mid = full.upper_middle();
    let (left, right) = full.split_index(mid);
    assert_eq!((left.start(), left.end()), (0, 3));
    assert_eq!((right.start(), right.end()), (3, 6));
    assert_eq!(container.slice_of(left), &[1, 2, 3]);
    assert_eq!(container.slice_of(right), &[4, 5, 6]);
}

#[test]
fn index_after_and_before_step_by_one() {
    let container = Container::new(vec![9, 8, 7]);
    let full = container.range().nonempty().unwrap();
    let first = full.first();
    let second = first.after();
    assert_eq!(second.integer(), 1);
    assert_eq!(*container.get(second), 8);
    assert_eq!(second.before().integer(), 0);
}

#[test]
fn brand_primitives_construct() {
    let _signed = Signed::new();
    let _seal = Seal::new();
    let container = Container::new(vec![1u8]);
    assert_eq!(container.len(), 1);
}

#[test]
fn index_comparisons_within_one_brand() {
    let container = Container::new(vec![3, 1, 4]);
    let full = container.range().nonempty().unwrap();
    let a = full.first();
    let b = full.last();
    assert!(a.lt(&b));
    assert!(!b.lt(&a));
    assert!(!a.eq(&b));
    assert!(a.eq(&a));
    assert!(a.after().after().eq(&b));
}

#[test]
fn range_comparison_within_one_brand() {
    let container = Container::new(vec![1, 2, 3, 4]);
    let full = container.range();
    assert!(full.eq(&container.range()));
    let (left, right) = full.split_in_half();
    assert!(!left.eq(&full));
    assert!(!left.eq(&right));
}

#[test]
fn container_clone_keeps_elements_and_brand() {
    let container = Container::new(vec![1, 2, 3]);
    let copy = container.clone();
    assert_eq!(copy.as_slice(), container.as_slice());
    let idx = container.range().nonempty().unwrap().last();
    assert_eq!(*copy.get(idx), 3);
}
