use drag_select::rect::{in_aabb, SelectionAabb};

#[test]
fn normalization_symmetry_concrete() {
    let r1 = SelectionAabb::new((0, 0), (64, 64));
    let r2 = SelectionAabb::new((64, 64), (0, 0));
    assert_eq!(r1.x_min, r2.x_min);
    assert_eq!(r1.y_min, r2.y_min);
    assert_eq!(r1.x_max, r2.x_max);
    assert_eq!(r1.y_max, r2.y_max);
    assert_eq!(r1.center(), r2.center());
    assert_eq!(r1.width(), r2.width());
    assert_eq!(r1.height(), r2.height());

    let r3 = SelectionAabb::new((-7, 12), (3, -4));
    let r4 = SelectionAabb::new((3, -4), (-7, 12));
    assert_eq!(r3.center(), r4.center());
    assert_eq!(r3.width(), r4.width());
    assert_eq!(r3.height(), r4.height());
    assert_eq!(r3.width(), 10);
    assert_eq!(r3.height(), 16);
}

#[test]
fn degenerate_drag_builds_empty_rectangle() {
    let r = SelectionAabb::new((5, -3), (5, -3));
    assert_eq!(r.width(), 0);
    assert_eq!(r.height(), 0);
    assert_eq!(r.center(), (5, -3));
    // The half-open y range admits nothing, not even the point itself.
    assert!(!in_aabb((5, -3), &r));
    assert!(!in_aabb((5, -4), &r));
    assert!(!in_aabb((5, -2), &r));
    assert!(!in_aabb((4, -3), &r));
}

#[test]
fn membership_boundary() {
    // Center (0,0), width 4, height 4: bounds x in [-2,2], y in [-2,2).
    let r = SelectionAabb::new((-2, -2), (2, 2));
    assert_eq!(r.center(), (0, 0));
    assert_eq!(r.width(), 4);
    assert_eq!(r.height(), 4);
    // y at its upper bound is exclusive.
    assert!(!in_aabb((2, 2), &r));
    // y at its lower bound is inclusive.
    assert!(in_aabb((2, -2), &r));
    // x at its lower bound is inclusive.
    assert!(in_aabb((-2, 0), &r));
    // x at its upper bound is inclusive.
    assert!(in_aabb((2, 0), &r));
    assert!(in_aabb((0, 0), &r));
    assert!(!in_aabb((3, 0), &r));
    assert!(!in_aabb((-3, 0), &r));
    assert!(!in_aabb((0, 3), &r));
    assert!(!in_aabb((0, -3), &r));
}

#[test]
fn odd_span_center_rounds_down() {
    let r = SelectionAabb::new((0, 0), (5, 3));
    assert_eq!(r.width(), 5);
    assert_eq!(r.height(), 3);
    assert_eq!(r.center(), (2, 1));
}
