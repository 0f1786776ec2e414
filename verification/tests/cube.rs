use hexgrid::cube::{Axis, CoordCube};
use hexgrid::ijk::CoordIJK;

/// Translation by a continuous offset: the floating sums, the independent
/// rounding (ties away from zero) and the error comparisons happen on the
/// caller's side; the verified core selects the axis to repair and restores
/// the zero-sum invariant.
fn translate(origin: &CoordCube, offsets: (f64, f64, f64)) -> CoordCube {
    let i: f64 = f64::from(origin.i) + offsets.0;
    let j: f64 = f64::from(origin.j) + offsets.1;
    let k: f64 = f64::from(origin.k) + offsets.2;

    let ri: i32 = i.round() as i32;
    let rj: i32 = j.round() as i32;
    let rk: i32 = k.round() as i32;

    let i_diff: f64 = (f64::from(ri) - i).abs();
    let j_diff: f64 = (f64::from(rj) - j).abs();
    let k_diff: f64 = (f64::from(rk) - k).abs();

    CoordCube::from_rounded(ri, rj, rk, i_diff > j_diff, i_diff > k_diff, j_diff > k_diff)
}

#[test]
fn new_sets_components() {
    let c = CoordCube::new(4, -9, 5);
    assert_eq!(c.i, 4);
    assert_eq!(c.j, -9);
    assert_eq!(c.k, 5);
}

#[test]
fn translate_plain_offset() {
    // Floating sums (1.2, -0.7, -0.5); the k axis carries the largest
    // rounding error and is recomputed from the other two.
    let origin = CoordCube::new(0, 0, 0);
    let c = translate(&origin, (1.2, -0.7, -0.5));
    assert_eq!(c, CoordCube::new(1, -1, 0));
    assert_eq!(i64::from(c.i) + i64::from(c.j) + i64::from(c.k), 0);
}

#[test]
fn translate_tie_between_i_and_j() {
    // Naive rounds (1, 1, -1) with errors (0.4, 0.4, 0.2): i ties j, both
    // exceed k, so j is repaired per the tie rule.
    let origin = CoordCube::new(0, 0, 0);
    let c = translate(&origin, (0.6, 0.6, -1.2));
    assert_eq!(c, CoordCube::new(1, 0, -1));
    assert_eq!(i64::from(c.i) + i64::from(c.j) + i64::from(c.k), 0);
}

#[test]
fn translate_tie_at_half() {
    // Errors (0.5, 0.5, 0.0): i never strictly exceeds j, so the cascade
    // falls through to j, which strictly exceeds k.
    let origin = CoordCube::new(0, 0, 0);
    let c = translate(&origin, (0.5, -0.5, 0.0));
    assert_eq!(c, CoordCube::new(1, -1, 0));
}

#[test]
fn translate_zero_offset_is_identity() {
    let coords: [CoordCube; 4] = [
        CoordCube::new(0, 0, 0),
        CoordCube::new(1, -1, 0),
        CoordCube::new(-7, 3, 4),
        CoordCube::new(250, -100, -150),
    ];
    for c in coords {
        assert_eq!(translate(&c, (0.0, 0.0, 0.0)), c);
    }
}

#[test]
fn translate_keeps_zero_sum() {
    let offsets: [(f64, f64, f64); 5] = [
        (1.2, -0.7, -0.5),
        (0.6, 0.6, -1.2),
        (0.5, -0.5, 0.0),
        (-2.4, 1.9, 0.5),
        (10.49, -5.51, -4.98),
    ];
    let origin = CoordCube::new(2, -3, 1);
    for o in offsets {
        let c = translate(&origin, o);
        assert_eq!(i64::from(c.i) + i64::from(c.j) + i64::from(c.k), 0);
    }
}

#[test]
fn axis_selection_tie_breaks() {
    // No strict comparison holds: the last axis, k, is repaired.
    assert_eq!(CoordCube::axis_to_repair(false, false, false), Axis::K);
    // j strictly exceeds k and i does not strictly exceed j: j is repaired.
    assert_eq!(CoordCube::axis_to_repair(false, true, true), Axis::J);
    assert_eq!(CoordCube::axis_to_repair(false, false, true), Axis::J);
    // i strictly exceeds both: i is repaired.
    assert_eq!(CoordCube::axis_to_repair(true, true, false), Axis::I);
    assert_eq!(CoordCube::axis_to_repair(true, true, true), Axis::I);
    // i exceeds j but not k: fall through to the j test.
    assert_eq!(CoordCube::axis_to_repair(true, false, true), Axis::J);
    assert_eq!(CoordCube::axis_to_repair(true, false, false), Axis::K);
}

#[test]
fn repair_recomputes_one_axis() {
    assert_eq!(CoordCube::repair(5, 7, 9, Axis::I), CoordCube::new(-16, 7, 9));
    assert_eq!(CoordCube::repair(5, 7, 9, Axis::J), CoordCube::new(5, -14, 9));
    assert_eq!(CoordCube::repair(5, 7, 9, Axis::K), CoordCube::new(5, 7, -12));
}

#[test]
fn normalize_examples() {
    assert_eq!(CoordIJK::new(1, 2, 3).normalize(), CoordIJK::new(0, 1, 2));
    assert_eq!(CoordIJK::new(-1, -2, 5).normalize(), CoordIJK::new(1, 0, 7));
    assert_eq!(CoordIJK::new(0, 0, 0).normalize(), CoordIJK::new(0, 0, 0));
    assert_eq!(CoordIJK::new(4, 4, 4).normalize(), CoordIJK::new(0, 0, 0));
}

#[test]
fn cube_to_lattice_mapping() {
    // Negate i, keep j, zero the third component, then normalize.
    let l = CoordIJK::from_cube(CoordCube::new(2, -3, 1));
    assert_eq!(l, CoordIJK::new(1, 0, 3));
    let origin = CoordIJK::from_cube(CoordCube::new(0, 0, 0));
    assert_eq!(origin, CoordIJK::new(0, 0, 0));
}

#[test]
fn lattice_round_trip() {
    let coords: [CoordCube; 4] = [
        CoordCube::new(0, 0, 0),
        CoordCube::new(2, -3, 1),
        CoordCube::new(-5, 5, 0),
        CoordCube::new(123, -23, -100),
    ];
    for c in coords {
        assert_eq!(CoordIJK::from_cube(c).to_cube(), c);
    }
}
