use perlin_noise::{Dimension, LatticePoint, NoiseField};

fn lp(x: i64, y: i64) -> LatticePoint {
    LatticePoint { x, y }
}

#[test]
fn scalar_corners_in_order() {
    let cs = Dimension::Scalar.corners(3, 99);
    assert_eq!(cs, vec![lp(3, 0), lp(4, 0)]);
}

#[test]
fn planar_corners_in_order() {
    let cs = Dimension::Planar.corners(2, -5);
    assert_eq!(cs, vec![lp(2, -5), lp(3, -5), lp(2, -4), lp(3, -4)]);
}

#[test]
fn corner_count_per_dimension() {
    assert_eq!(Dimension::Scalar.corner_count(), 2);
    assert_eq!(Dimension::Planar.corner_count(), 4);
    assert_eq!(Dimension::Scalar.axes(), 1);
    assert_eq!(Dimension::Planar.axes(), 2);
    for (bx, by) in [(0, 0), (-7, 3), (i32::MIN, i32::MAX), (1000, -1000)] {
        assert_eq!(Dimension::Scalar.corners(bx, by).len(), 2);
        assert_eq!(Dimension::Planar.corners(bx, by).len(), 4);
    }
}

#[test]
fn corners_at_the_largest_base_do_not_wrap() {
    let cs = Dimension::Planar.corners(i32::MAX, i32::MAX);
    let m = i32::MAX as i64;
    assert_eq!(cs, vec![lp(m, m), lp(m + 1, m), lp(m, m + 1), lp(m + 1, m + 1)]);
}

#[test]
fn field_starts_empty() {
    let f: NoiseField<i32> = NoiseField::new();
    assert_eq!(f.get(lp(0, 0)), None);
    assert!(!f.contains(lp(0, 0)));
}

#[test]
fn field_keeps_points_apart() {
    let mut f: NoiseField<i32> = NoiseField::new();
    f.insert(lp(1, 2), 10);
    f.insert(lp(2, 1), 20);
    f.insert(lp(-1, 2), 30);
    f.insert(lp(i64::MIN, i64::MAX), 40);
    f.insert(lp(i64::MAX, i64::MIN), 50);
    assert_eq!(f.get(lp(1, 2)), Some(10));
    assert_eq!(f.get(lp(2, 1)), Some(20));
    assert_eq!(f.get(lp(-1, 2)), Some(30));
    assert_eq!(f.get(lp(i64::MIN, i64::MAX)), Some(40));
    assert_eq!(f.get(lp(i64::MAX, i64::MIN)), Some(50));
    assert_eq!(f.get(lp(1, -2)), None);
    assert!(f.contains(lp(2, 1)));
    assert!(!f.contains(lp(0, 0)));
}
