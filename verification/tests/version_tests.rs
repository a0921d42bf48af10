use tela::version::Version;

#[test]
fn ordering_is_lexicographic() {
    let v = |maj: u32, min: u32, pat: u32| Version::new(maj, min, pat);
    assert!(v(1, 2, 3) < v(1, 2, 4));
    assert!(v(1, 2, 3) < v(1, 3, 0));
    assert!(v(1, 2, 3) < v(2, 0, 0));
    assert_eq!(v(2, 0, 0).max(v(1, 99, 99)), v(2, 0, 0));
}

#[test]
fn comparison_is_total_and_equal_versions_compare_equal() {
    let a = Version::new(3, 1, 4);
    let b = Version::new(3, 1, 4);
    assert_eq!(a.partial_cmp(&b), Some(std::cmp::Ordering::Equal));
    assert!(!(a < b) && !(b < a));
    assert!(Version::new(0, 0, 1) > Version::default());
    assert_eq!(Version::default(), Version::new(0, 0, 0));
}
