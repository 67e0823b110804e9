use showcase::max_finder::find_max;

#[test]
fn empty_has_no_max() {
    assert_eq!(find_max(&[]), None);
}

#[test]
fn max_of_one_to_five() {
    assert_eq!(find_max(&[1, 2, 3, 4, 5]), Some(5));
}

#[test]
fn max_of_single() {
    assert_eq!(find_max(&[7]), Some(7));
}

#[test]
fn max_is_an_element_and_bounds_all() {
    let items = [3, -8, 12, 12, 0, -1, 5];
    let m = find_max(&items).unwrap();
    assert!(items.contains(&m));
    assert!(items.iter().all(|&x| x <= m));
    assert_eq!(m, 12);
}

#[test]
fn max_at_extremes() {
    assert_eq!(find_max(&[i32::MIN, i32::MIN]), Some(i32::MIN));
    assert_eq!(find_max(&[i32::MAX, 0, i32::MIN]), Some(i32::MAX));
    assert_eq!(find_max(&[-5, -2, -9]), Some(-2));
}
