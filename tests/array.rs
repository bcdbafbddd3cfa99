use pytucanos::array::{split_pairs, Array2};

#[test]
fn new_accepts_matching_length() {
    let a = Array2::new(vec![1u32, 2, 3, 4, 5, 6], 2, 3).unwrap();
    assert_eq!(a.n_rows(), 2);
    assert_eq!(a.n_cols(), 3);
    assert_eq!(a.to_flat(), vec![1, 2, 3, 4, 5, 6]);
}

#[test]
fn new_rejects_other_length() {
    assert!(Array2::new(vec![1u32, 2, 3, 4, 5], 2, 3).is_none());
    assert!(Array2::new(vec![1u32, 2, 3, 4, 5, 6, 7], 2, 3).is_none());
    assert!(Array2::new(vec![1u32], 1, 0).is_none());
}

#[test]
fn new_accepts_empty_arrays() {
    let a = Array2::<u32>::new(vec![], 0, 4).unwrap();
    assert_eq!(a.n_rows(), 0);
    assert_eq!(a.to_rows(), Vec::<Vec<u32>>::new());
    let b = Array2::<u32>::new(vec![], 3, 0).unwrap();
    assert_eq!(b.to_rows(), vec![Vec::<u32>::new(), vec![], vec![]]);
}

#[test]
fn to_rows_splits_row_major() {
    let a = Array2::new(vec![0u32, 1, 2, 3, 4, 5, 6, 7], 2, 4).unwrap();
    assert_eq!(a.to_rows(), vec![vec![0, 1, 2, 3], vec![4, 5, 6, 7]]);
    let b = Array2::new(vec![0u32, 1, 2, 3, 4, 5, 6, 7], 4, 2).unwrap();
    assert_eq!(b.to_rows(), vec![vec![0, 1], vec![2, 3], vec![4, 5], vec![6, 7]]);
}

#[test]
fn to_rows_of_floats() {
    let a = Array2::new(vec![0.5f64, 1.5, 2.5, 3.5, 4.5, 5.5], 3, 2).unwrap();
    assert_eq!(a.to_rows(), vec![vec![0.5, 1.5], vec![2.5, 3.5], vec![4.5, 5.5]]);
}

#[test]
fn from_flat_reshapes() {
    let a = Array2::from_flat(vec![1i16, 2, 3, 4, 5, 6], 2).unwrap();
    assert_eq!(a.n_rows(), 3);
    assert_eq!(a.n_cols(), 2);
    assert_eq!(a.into_flat(), vec![1, 2, 3, 4, 5, 6]);
}

#[test]
fn from_flat_rejects_bad_widths() {
    assert!(Array2::from_flat(vec![1u32, 2, 3, 4, 5], 2).is_none());
    assert!(Array2::<u32>::from_flat(vec![], 0).is_none());
    let e = Array2::<u32>::from_flat(vec![], 3).unwrap();
    assert_eq!(e.n_rows(), 0);
}

#[test]
fn from_rows_flattens() {
    let rows = vec![vec![1u32, 2, 3], vec![4, 5, 6]];
    let a = Array2::from_rows(&rows, 3).unwrap();
    assert_eq!(a.n_rows(), 2);
    assert_eq!(a.n_cols(), 3);
    assert_eq!(a.to_flat(), vec![1, 2, 3, 4, 5, 6]);
}

#[test]
fn from_rows_rejects_ragged_rows() {
    let rows = vec![vec![1u32, 2, 3], vec![4, 5]];
    assert!(Array2::from_rows(&rows, 3).is_none());
    assert!(Array2::from_rows(&rows, 2).is_none());
}

#[test]
fn rows_round_trip() {
    let a = Array2::new(vec![9u32, 8, 7, 6, 5, 4, 3, 2, 1], 3, 3).unwrap();
    let b = Array2::from_rows(&a.to_rows(), 3).unwrap();
    assert_eq!(b.to_flat(), a.to_flat());
    assert_eq!(b.n_rows(), 3);
}

#[test]
fn split_pairs_keeps_order() {
    let triples = vec![(0u32, 1u32, 0.25f64), (2, 3, 0.5), (1, 4, 0.75)];
    let (ids, vals) = split_pairs(&triples);
    assert_eq!(ids.n_cols(), 2);
    assert_eq!(ids.to_rows(), vec![vec![0, 1], vec![2, 3], vec![1, 4]]);
    assert_eq!(vals, vec![0.25, 0.5, 0.75]);
}

#[test]
fn split_pairs_of_nothing() {
    let triples: Vec<(u32, u32, f64)> = vec![];
    let (ids, vals) = split_pairs(&triples);
    assert_eq!(ids.n_rows(), 0);
    assert!(vals.is_empty());
}
