use order_status::{get_ordering, Verdict};

#[test]
fn undef_works() {
    assert_eq!(get_ordering::<u8>(&[]), Verdict::Undefined);
    assert_eq!(get_ordering(&[0]), Verdict::Undefined);
}

#[test]
fn eq_works() {
    assert_eq!(get_ordering(&[69; 69]), Verdict::Equal);
}

#[test]
fn asc_works() {
    assert_eq!(get_ordering(&[-2, -1, 0, 1, 2]), Verdict::Ascending);
}

#[test]
fn des_works() {
    assert_eq!(get_ordering(&[2, 1, 0, -1, -2]), Verdict::Descending);
}

#[test]
fn none_works() {
    assert_eq!(get_ordering(&[0, 1, 0]), Verdict::Unsorted);
    assert_eq!(get_ordering(&[-6, 1, -9, 42]), Verdict::Unsorted);
}

#[test]
fn empty_and_single_are_undefined() {
    assert_eq!(get_ordering::<i64>(&[]), Verdict::Undefined);
    assert_eq!(get_ordering(&[5]), Verdict::Undefined);
    assert_eq!(get_ordering(&["alone"]), Verdict::Undefined);
    assert_eq!(get_ordering(&[f64::NAN]), Verdict::Undefined);
}

#[test]
fn two_or_more_are_never_undefined() {
    assert_ne!(get_ordering(&[1, 1]), Verdict::Undefined);
    assert_ne!(get_ordering(&[1, 2]), Verdict::Undefined);
    assert_ne!(get_ordering(&[2, 1]), Verdict::Undefined);
    assert_ne!(get_ordering(&[f64::NAN, f64::NAN]), Verdict::Undefined);
}

#[test]
fn repeated_value_is_equal() {
    assert_eq!(get_ordering(&[7, 7, 7, 7]), Verdict::Equal);
    assert_eq!(get_ordering(&[0u8, 0]), Verdict::Equal);
    assert_eq!(get_ordering(&["a", "a", "a"]), Verdict::Equal);
    assert_eq!(get_ordering(&[i64::MIN; 3]), Verdict::Equal);
}

#[test]
fn equal_takes_precedence_over_both_orders() {
    // A constant sequence is non-decreasing and non-increasing as well.
    let v = [3, 3, 3];
    assert!(v.windows(2).all(|w| w[0] <= w[1]));
    assert!(v.windows(2).all(|w| w[0] >= w[1]));
    assert_eq!(get_ordering(&v), Verdict::Equal);
}

#[test]
fn strictly_increasing_is_ascending() {
    assert_eq!(get_ordering(&[1, 2]), Verdict::Ascending);
    assert_eq!(get_ordering(&[i32::MIN, -1, 0, 1, i32::MAX]), Verdict::Ascending);
    assert_eq!(get_ordering(&["a", "b", "c"]), Verdict::Ascending);
    assert_eq!(get_ordering(&[(0, 9), (1, 0), (1, 1)]), Verdict::Ascending);
}

#[test]
fn non_strictly_increasing_is_ascending() {
    assert_eq!(get_ordering(&[1, 1, 2]), Verdict::Ascending);
    assert_eq!(get_ordering(&[1, 2, 2]), Verdict::Ascending);
    assert_eq!(get_ordering(&[0, 0, 0, 0, 1]), Verdict::Ascending);
}

#[test]
fn strictly_decreasing_is_descending() {
    assert_eq!(get_ordering(&[2, 1]), Verdict::Descending);
    assert_eq!(get_ordering(&[u64::MAX, 7, 0]), Verdict::Descending);
    assert_eq!(get_ordering(&["c", "b", "a"]), Verdict::Descending);
}

#[test]
fn non_strictly_decreasing_is_descending() {
    assert_eq!(get_ordering(&[2, 2, 1]), Verdict::Descending);
    assert_eq!(get_ordering(&[2, 1, 1]), Verdict::Descending);
    assert_eq!(get_ordering(&[1, 0, 0, 0, 0]), Verdict::Descending);
}

#[test]
fn up_then_down_is_unsorted() {
    assert_eq!(get_ordering(&[0, 1, 0]), Verdict::Unsorted);
    assert_eq!(get_ordering(&[1, 2, 2, 1]), Verdict::Unsorted);
    assert_eq!(get_ordering(&[1, 1, 2, 1]), Verdict::Unsorted);
}

#[test]
fn down_then_up_is_unsorted() {
    assert_eq!(get_ordering(&[1, 0, 1]), Verdict::Unsorted);
    assert_eq!(get_ordering(&[-6, 1, -9, 42]), Verdict::Unsorted);
    assert_eq!(get_ordering(&[5, 5, 4, 5]), Verdict::Unsorted);
}

#[test]
fn break_at_the_last_pair_is_found() {
    assert_eq!(get_ordering(&[1, 2, 3, 4, 5, 4]), Verdict::Unsorted);
    assert_eq!(get_ordering(&[5, 4, 3, 2, 1, 2]), Verdict::Unsorted);
    assert_eq!(get_ordering(&[1, 1, 1, 1, 1, 2]), Verdict::Ascending);
    assert_eq!(get_ordering(&[1, 1, 1, 1, 1, 0]), Verdict::Descending);
}

#[test]
fn floats_in_order() {
    assert_eq!(get_ordering(&[1.5, 1.5]), Verdict::Equal);
    assert_eq!(get_ordering(&[-1.0, 0.0, 0.5]), Verdict::Ascending);
    assert_eq!(get_ordering(&[f64::INFINITY, 1.0, f64::NEG_INFINITY]), Verdict::Descending);
    assert_eq!(get_ordering(&[0.0, 1.0, 0.0]), Verdict::Unsorted);
    assert_eq!(get_ordering(&[0.0, -0.0]), Verdict::Equal);
}

#[test]
fn incomparable_pair_is_unsorted() {
    assert_eq!(get_ordering(&[1.0, f64::NAN]), Verdict::Unsorted);
    assert_eq!(get_ordering(&[f64::NAN, 1.0]), Verdict::Unsorted);
    assert_eq!(get_ordering(&[f64::NAN, f64::NAN]), Verdict::Unsorted);
    assert_eq!(get_ordering(&[1.0, 2.0, f64::NAN, 3.0]), Verdict::Unsorted);
    assert_eq!(get_ordering(&[3.0, 2.0, f64::NAN]), Verdict::Unsorted);
    assert_eq!(get_ordering(&[1.0, 1.0, f64::NAN]), Verdict::Unsorted);
}

#[test]
fn partially_ordered_options() {
    // `None` sorts before every `Some`.
    assert_eq!(get_ordering(&[None, Some(1), Some(2)]), Verdict::Ascending);
    assert_eq!(get_ordering(&[Some(2), Some(1), None]), Verdict::Descending);
    assert_eq!(get_ordering::<Option<u8>>(&[None, None]), Verdict::Equal);
    assert_eq!(get_ordering(&[Some(1), None, Some(1)]), Verdict::Unsorted);
}

#[test]
fn same_slice_same_verdict() {
    let inputs: Vec<Vec<i32>> = vec![
        vec![],
        vec![5],
        vec![7, 7, 7, 7],
        vec![-2, -1, 0, 1, 2],
        vec![2, 1, 0, -1, -2],
        vec![0, 1, 0],
        vec![-6, 1, -9, 42],
    ];
    for v in &inputs {
        let first = get_ordering(v);
        let second = get_ordering(v);
        assert_eq!(first, second);
    }
}

#[test]
fn slice_is_left_as_it_was() {
    let v = vec![3, 1, 2];
    let before = v.clone();
    assert_eq!(get_ordering(&v), Verdict::Unsorted);
    assert_eq!(v, before);
}

#[test]
fn works_on_vectors_and_subslices() {
    let v = vec![9, 1, 2, 3, 0];
    assert_eq!(get_ordering(&v), Verdict::Unsorted);
    assert_eq!(get_ordering(&v[1..4]), Verdict::Ascending);
    assert_eq!(get_ordering(&v[3..]), Verdict::Descending);
    assert_eq!(get_ordering(&v[2..3]), Verdict::Undefined);
    assert_eq!(get_ordering(&v[2..2]), Verdict::Undefined);
}

#[test]
fn listed_scenarios() {
    assert_eq!(get_ordering::<i32>(&[]), Verdict::Undefined);
    assert_eq!(get_ordering(&[5]), Verdict::Undefined);
    assert_eq!(get_ordering(&[7, 7, 7, 7]), Verdict::Equal);
    assert_eq!(get_ordering(&[-2, -1, 0, 1, 2]), Verdict::Ascending);
    assert_eq!(get_ordering(&[2, 1, 0, -1, -2]), Verdict::Descending);
    assert_eq!(get_ordering(&[0, 1, 0]), Verdict::Unsorted);
    assert_eq!(get_ordering(&[-6, 1, -9, 42]), Verdict::Unsorted);
}
