//! Geometry and swept-resolution behaviour on concrete values.

use engine::geometry::{overlap, Aabb};
use engine::sweep::resolve_pair;

fn aabb(x: i64, y: i64, w: i64, h: i64) -> Aabb {
    Aabb { x, y, w, h }
}

#[test]
fn overlap_symmetric_on_overlapping_pair() {
    let a = aabb(0, 0, 50, 50);
    let b = aabb(30, 10, 50, 50);
    assert!(overlap(&a, &b));
    assert!(overlap(&b, &a));
}

#[test]
fn overlap_symmetric_on_disjoint_pair() {
    let a = aabb(0, 0, 50, 50);
    let b = aabb(200, 0, 50, 50);
    assert!(!overlap(&a, &b));
    assert!(!overlap(&b, &a));
}

#[test]
fn touching_edges_do_not_overlap() {
    // Right edge of `a` exactly meets the left edge of `b`.
    let a = aabb(0, 0, 50, 50);
    let b = aabb(50, 0, 50, 50);
    assert!(!overlap(&a, &b));
    assert!(!overlap(&b, &a));
}

#[test]
fn overlap_needs_both_axes() {
    let a = aabb(0, 0, 50, 50);
    let beside = aabb(60, 0, 50, 50);
    let below = aabb(0, 60, 50, 50);
    assert!(!overlap(&a, &beside));
    assert!(!overlap(&a, &below));
}

#[test]
fn resolve_none_without_future_overlap() {
    let m = aabb(0, 0, 50, 50);
    let o = aabb(500, 0, 50, 50);
    assert_eq!(resolve_pair(&m, &o, 20, 0), None);
}

#[test]
fn resolve_none_for_zero_displacement() {
    // Even two boxes already overlapping are left alone when nothing moves.
    let m = aabb(0, 0, 50, 50);
    let o = aabb(10, 0, 50, 50);
    assert_eq!(resolve_pair(&m, &o, 0, 0), None);
}

#[test]
fn swept_clamp_scenario() {
    // Distances in thousandths of a unit: a box at (100, 100) of size
    // (50, 50) moves right by 20 units into a box at (140, 100) of size
    // (50, 50).  The mover is clamped back to the contact position
    // x = 140 - 25 - 25 = 90.
    let m = aabb(100_000, 100_000, 50_000, 50_000);
    let o = aabb(140_000, 100_000, 50_000, 50_000);
    let r = resolve_pair(&m, &o, 20_000, 0);
    assert_eq!(r, Some((-10_000, 0)));
    let resolved = aabb(m.x - 10_000, m.y, m.w, m.h);
    assert!(!overlap(&resolved, &o));
}

#[test]
fn swept_clamp_vertical() {
    // The same scenario rotated onto the vertical axis.
    let m = aabb(100_000, 100_000, 50_000, 50_000);
    let o = aabb(100_000, 140_000, 50_000, 50_000);
    let r = resolve_pair(&m, &o, 0, 20_000);
    assert_eq!(r, Some((0, -10_000)));
}

#[test]
fn swept_clamp_from_the_right() {
    // Approaching leftward: the mover stops with its left edge on the
    // obstacle's right edge.
    let m = aabb(140_000, 100_000, 50_000, 50_000);
    let o = aabb(100_000, 100_000, 50_000, 50_000);
    let r = resolve_pair(&m, &o, -20_000, 0);
    assert_eq!(r, Some((10_000, 0)));
    let resolved = aabb(m.x + 10_000, m.y, m.w, m.h);
    assert!(!overlap(&resolved, &o));
}

#[test]
fn clamp_from_outside_contact() {
    // A mover with a gap of 5 to the obstacle, pushing 10 deep: it stops
    // exactly at contact.
    let m = aabb(0, 0, 50, 50);
    let o = aabb(60, 0, 50, 50);
    let r = resolve_pair(&m, &o, 20, 0);
    assert_eq!(r, Some((10, 0)));
    let resolved = aabb(10, 0, 50, 50);
    assert!(!overlap(&resolved, &o));
}

#[test]
fn odd_contact_rounds_away_from_the_obstacle() {
    // Combined radius 51 makes the exact contact offset 9.5; it rounds to
    // 9, on the non-overlapping side.
    let m = aabb(0, 0, 51, 51);
    let o = aabb(60, 0, 51, 51);
    let r = resolve_pair(&m, &o, 20, 0);
    assert_eq!(r, Some((9, 0)));
    let resolved = aabb(9, 0, 51, 51);
    assert!(!overlap(&resolved, &o));
}

#[test]
fn diagonal_motion_clamps_binding_axis() {
    // Mostly-horizontal approach toward a box offset to the right: the
    // horizontal axis binds and is clamped to contact; the vertical axis
    // runs to its exit fraction.
    let m = aabb(0, 0, 10, 10);
    let o = aabb(30, 0, 10, 10);
    let r = resolve_pair(&m, &o, 25, 1);
    // Horizontal contact: 30 - 10 = 20; the vertical axis runs to its exit
    // fraction, (0 + 20) / 2 = 10.
    assert_eq!(r, Some((20, 10)));
    let resolved = aabb(m.x + 20, m.y + 10, m.w, m.h);
    assert!(!overlap(&resolved, &o));
}
