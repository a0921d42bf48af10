use tela::raster::{inscribed_square, intersect_irect, irect_contains, IRect};

fn rect(x: i32, y: i32, w: i32, h: i32) -> IRect {
    IRect { x, y, w, h }
}

#[test]
fn intersection_clips_to_the_overlap() {
    assert_eq!(intersect_irect(rect(0, 0, 10, 10), rect(5, 5, 10, 10)), rect(5, 5, 5, 5));
    assert_eq!(intersect_irect(rect(0, 0, 4, 4), rect(10, 10, 2, 2)), rect(10, 10, 0, 0));
    assert_eq!(
        intersect_irect(rect(-5, 0, 10, 3), rect(0, -2, 3, 10)),
        intersect_irect(rect(0, -2, 3, 10), rect(-5, 0, 10, 3))
    );
}

#[test]
fn containment_is_half_open() {
    let r = rect(1, 2, 3, 4);
    assert!(irect_contains(&r, 1, 2));
    assert!(irect_contains(&r, 3, 5));
    assert!(!irect_contains(&r, 4, 5));
    assert!(!irect_contains(&r, 3, 6));
    assert!(!irect_contains(&rect(0, 0, 0, 5), 0, 0));
}

#[test]
fn inscribed_square_is_centered() {
    assert_eq!(inscribed_square(rect(0, 0, 10, 4)), rect(3, 0, 4, 4));
    assert_eq!(inscribed_square(rect(0, 0, 4, 9)), rect(0, 2, 4, 4));
    assert_eq!(inscribed_square(rect(2, 2, -3, 5)), rect(1, 4, 0, 0));
}

#[test]
fn containment_near_the_i32_limits() {
    let r = rect(i32::MAX - 1, 0, 1, 1);
    assert!(irect_contains(&r, i32::MAX - 1, 0));
    assert!(!irect_contains(&rect(10, 10, i32::MAX, 5), 0, 20));
    assert_eq!(inscribed_square(rect(i32::MAX - 4, 0, 2, 9)), rect(i32::MAX - 4, 3, 2, 2));
}
