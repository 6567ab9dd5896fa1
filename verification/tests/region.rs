use qua_format::timing_region;

#[test]
fn no_timing_point_no_region() {
    assert_eq!(timing_region(&vec![], 0), None);
    assert_eq!(timing_region(&vec![], i64::MAX), None);
}

#[test]
fn one_timing_point_is_always_in_force() {
    assert_eq!(timing_region(&vec![100], 0), Some(0));
    assert_eq!(timing_region(&vec![100], 100), Some(0));
    assert_eq!(timing_region(&vec![100], 5000), Some(0));
    assert_eq!(timing_region(&vec![100], i64::MIN), Some(0));
}

#[test]
fn region_is_from_a_start_until_the_next() {
    let starts = vec![0, 1000, 2500];
    assert_eq!(timing_region(&starts, 0), Some(0));
    assert_eq!(timing_region(&starts, 999), Some(0));
    assert_eq!(timing_region(&starts, 1000), Some(1));
    assert_eq!(timing_region(&starts, 2499), Some(1));
    assert_eq!(timing_region(&starts, 2500), Some(2));
    assert_eq!(timing_region(&starts, i64::MAX), Some(2));
}

#[test]
fn time_before_every_start_falls_to_the_first() {
    let starts = vec![500, 1000];
    assert_eq!(timing_region(&starts, 499), Some(0));
    assert_eq!(timing_region(&starts, -1), Some(0));
    assert_eq!(timing_region(&starts, i64::MIN), Some(0));
}

#[test]
fn timing_points_with_one_start_give_the_last() {
    assert_eq!(timing_region(&vec![0, 0, 0], 0), Some(2));
    assert_eq!(timing_region(&vec![0, 7, 7, 9], 8), Some(2));
}

#[test]
fn out_of_order_the_latest_start_is_in_force() {
    let starts = vec![1000, 0, 2000, 500];
    assert_eq!(timing_region(&starts, 600), Some(3));
    assert_eq!(timing_region(&starts, 400), Some(1));
    assert_eq!(timing_region(&starts, 0), Some(1));
    assert_eq!(timing_region(&starts, 1000), Some(0));
    assert_eq!(timing_region(&starts, 1999), Some(0));
    assert_eq!(timing_region(&starts, 2000), Some(2));
    assert_eq!(timing_region(&starts, i64::MAX), Some(2));
    assert_eq!(timing_region(&starts, -5), Some(0));
}

#[test]
fn out_of_order_equal_starts_give_the_last_of_them() {
    let starts = vec![700, 100, 700, 300];
    assert_eq!(timing_region(&starts, 700), Some(2));
    assert_eq!(timing_region(&starts, 699), Some(3));
    assert_eq!(timing_region(&starts, 50), Some(0));
}
