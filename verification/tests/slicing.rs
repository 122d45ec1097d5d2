use model_merge::slicing::{range_slices, ranges_are_in_order, weighted_slices, Slice};

fn s(offset: usize, len: usize) -> Slice {
    Slice { offset, len }
}

#[test]
fn last_parent_takes_what_is_left() {
    assert_eq!(weighted_slices(10, &[3, 3, 3]), vec![s(0, 3), s(3, 3), s(6, 4)]);
    assert_eq!(weighted_slices(10, &[5, 999]), vec![s(0, 5), s(5, 5)]);
    assert_eq!(weighted_slices(7, &[7, 0]), vec![s(0, 7), s(7, 0)]);
}

#[test]
fn every_parent_but_the_last_takes_at_least_one_entry() {
    assert_eq!(weighted_slices(4, &[0, 0, 0]), vec![s(0, 1), s(1, 1), s(2, 2)]);
}

#[test]
fn slicing_ends_at_the_first_slice_beyond_the_dimension() {
    assert_eq!(weighted_slices(10, &[6, 6, 1]), vec![s(0, 6)]);
    assert_eq!(weighted_slices(3, &[4, 1]), Vec::<Slice>::new());
    assert_eq!(weighted_slices(0, &[0, 0]), Vec::<Slice>::new());
    assert_eq!(weighted_slices(10, &[usize::MAX, 1]), Vec::<Slice>::new());
}

#[test]
fn one_parent_takes_the_whole_dimension() {
    assert_eq!(weighted_slices(5, &[2]), vec![s(0, 5)]);
    assert_eq!(weighted_slices(0, &[9]), vec![s(0, 0)]);
    assert_eq!(weighted_slices(5, &[]), Vec::<Slice>::new());
}

#[test]
fn slices_lie_one_behind_the_other() {
    for dim in 0..40usize {
        for a in 0..12usize {
            for b in 0..12usize {
                let slices = weighted_slices(dim, &[a, b, 5]);
                let mut at = 0;
                for slice in &slices {
                    assert_eq!(slice.offset, at);
                    at += slice.len;
                    assert!(at <= dim);
                }
                if slices.len() == 3 {
                    assert_eq!(at, dim);
                }
            }
        }
    }
}

#[test]
fn configured_ranges_give_their_slices() {
    let ranges = [(0, 4), (2, 2), (5, 9)];
    assert!(ranges_are_in_order(&ranges));
    assert_eq!(range_slices(&ranges), vec![s(0, 4), s(2, 0), s(5, 4)]);
    assert!(!ranges_are_in_order(&[(0, 4), (3, 2)]));
    assert!(ranges_are_in_order(&[]));
    assert_eq!(range_slices(&[]), Vec::<Slice>::new());
}
