use vstd::prelude::*;

verus! {

/// The axis of a cube coordinate that the rounding step recomputes in order
/// to restore the zero-sum invariant.
#[derive(Clone, Copy, Debug, PartialEq, Eq, Structural)]
pub enum Axis {
    /// The `i` axis.
    I,
    /// The `j` axis.
    J,
    /// The `k` axis.
    K,
}

/// Whether an unbounded integer is representable as an `i32`.
pub open spec fn fits_i32(v: int) -> bool {
    i32::MIN <= v <= i32::MAX
}

/// Cube coordinates.
///
/// Cube coordinates are more suitable than `IJK` for linear interpolation:
/// their three axes are symmetric, which makes geometric rounding
/// well-defined.
#[derive(Clone, Copy, Debug, PartialEq, Eq, Structural)]
pub struct CoordCube {
    /// `i` component.
    pub i: i32,
    /// `j` component.
    pub j: i32,
    /// `k` component.
    pub k: i32,
}

impl CoordCube {
    /// The component sum.
    pub open spec fn sum(self) -> int {
        self.i + self.j + self.k
    }

    /// Valid cube coordinates always sum to zero.
    pub open spec fn is_valid(self) -> bool {
        self.sum() == 0
    }

    /// Initializes a new cube coordinate with the specified component values.
    pub fn new(i: i32, j: i32, k: i32) -> (r: Self)
        ensures
            r == (CoordCube { i, j, k }),
    {
        Self { i, j, k }
    }

    /// The axis whose rounding error is largest, decided from the outcomes of
    /// the three strict comparisons between the per-axis errors.
    ///
    /// Ties go to the axis tested later in the fixed `i`, `j`, `k` order: an
    /// axis is selected only when its error strictly exceeds those of the
    /// axes tested after it.
    pub open spec fn chosen_axis(i_exceeds_j: bool, i_exceeds_k: bool, j_exceeds_k: bool) -> Axis {
        if i_exceeds_j && i_exceeds_k {
            Axis::I
        } else if j_exceeds_k {
            Axis::J
        } else {
            Axis::K
        }
    }

    /// Selects the axis to repair after independent per-axis rounding.
    ///
    /// The arguments are the outcomes of the strict comparisons between the
    /// absolute rounding errors of the three axes: `i_exceeds_j` is
    /// `i_err > j_err`, `i_exceeds_k` is `i_err > k_err`, and `j_exceeds_k`
    /// is `j_err > k_err`.
    pub fn axis_to_repair(i_exceeds_j: bool, i_exceeds_k: bool, j_exceeds_k: bool) -> (r: Axis)
        ensures
            r == Self::chosen_axis(i_exceeds_j, i_exceeds_k, j_exceeds_k),
    {
        if i_exceeds_j && i_exceeds_k {
            Axis::I
        } else if j_exceeds_k {
            Axis::J
        } else {
            Axis::K
        }
    }

    /// The rounded axis values with `axis` recomputed as the negated sum of
    /// the other two.
    pub open spec fn repaired(ri: int, rj: int, rk: int, axis: Axis) -> (int, int, int) {
        match axis {
            Axis::I => (-rj - rk, rj, rk),
            Axis::J => (ri, -ri - rk, rk),
            Axis::K => (ri, rj, -ri - rj),
        }
    }

    /// Discards the independent rounding of `axis` and recomputes it as the
    /// negated sum of the other two axes (which are trusted as correctly
    /// rounded), restoring the zero-sum invariant exactly.
    pub fn repair(ri: i32, rj: i32, rk: i32, axis: Axis) -> (r: Self)
        requires
            axis == Axis::I ==> fits_i32(-(rj as int) - (rk as int)),
            axis == Axis::J ==> fits_i32(-(ri as int) - (rk as int)),
            axis == Axis::K ==> fits_i32(-(ri as int) - (rj as int)),
        ensures
            (r.i as int, r.j as int, r.k as int) == Self::repaired(
                ri as int,
                rj as int,
                rk as int,
                axis,
            ),
            r.is_valid(),
    {
        match axis {
            Axis::I => {
                let v: i64 = -(rj as i64) - (rk as i64);
                Self { i: v as i32, j: rj, k: rk }
            },
            Axis::J => {
                let v: i64 = -(ri as i64) - (rk as i64);
                Self { i: ri, j: v as i32, k: rk }
            },
            Axis::K => {
                let v: i64 = -(ri as i64) - (rj as i64);
                Self { i: ri, j: rj, k: v as i32 }
            },
        }
    }

    /// Completes a translation by a continuous offset.
    ///
    /// `ri`, `rj` and `rk` are the floating sums of each axis and its offset,
    /// each rounded independently to the nearest integer (ties away from
    /// zero); the three boolean arguments are the outcomes of the strict
    /// comparisons between the absolute per-axis rounding errors, as in
    /// [`Self::axis_to_repair`]. Independent rounding may put the sum off
    /// zero; the axis with the largest error is recomputed from the other
    /// two, so the result satisfies the zero-sum invariant exactly.
    pub fn from_rounded(
        ri: i32,
        rj: i32,
        rk: i32,
        i_exceeds_j: bool,
        i_exceeds_k: bool,
        j_exceeds_k: bool,
    ) -> (r: Self)
        requires
            Self::chosen_axis(i_exceeds_j, i_exceeds_k, j_exceeds_k) == Axis::I ==> fits_i32(
                -(rj as int) - (rk as int),
            ),
            Self::chosen_axis(i_exceeds_j, i_exceeds_k, j_exceeds_k) == Axis::J ==> fits_i32(
                -(ri as int) - (rk as int),
            ),
            Self::chosen_axis(i_exceeds_j, i_exceeds_k, j_exceeds_k) == Axis::K ==> fits_i32(
                -(ri as int) - (rj as int),
            ),
        ensures
            (r.i as int, r.j as int, r.k as int) == Self::repaired(
                ri as int,
                rj as int,
                rk as int,
                Self::chosen_axis(i_exceeds_j, i_exceeds_k, j_exceeds_k),
            ),
            r.is_valid(),
    {
        let axis = Self::axis_to_repair(i_exceeds_j, i_exceeds_k, j_exceeds_k);
        Self::repair(ri, rj, rk, axis)
    }
}

/// Every repaired coordinate satisfies the zero-sum invariant exactly,
/// whichever axis is recomputed and whatever the rounded values are.
pub proof fn lemma_repaired_zero_sum(ri: int, rj: int, rk: int, axis: Axis)
    ensures
        ({
            let (i, j, k) = CoordCube::repaired(ri, rj, rk, axis);
            i + j + k == 0
        }),
{
}

/// Translating by a zero offset leaves a valid coordinate unchanged: every
/// floating sum is then the exact integer component, every per-axis rounding
/// error is zero, so no strict comparison holds and the `k` axis is
/// recomputed, to the very value it already had, since the components sum to
/// zero.
pub proof fn lemma_zero_offset_identity(c: CoordCube)
    requires
        c.is_valid(),
    ensures
        CoordCube::repaired(
            c.i as int,
            c.j as int,
            c.k as int,
            CoordCube::chosen_axis(false, false, false),
        ) == (c.i as int, c.j as int, c.k as int),
{
}

/// Tie-break determinism: an axis is selected for repair only when its error
/// strictly exceeds the errors of the axes tested after it in the fixed `i`,
/// `j`, `k` order; on exact ties the later axis wins.
pub proof fn lemma_tie_break_order(i_exceeds_j: bool, i_exceeds_k: bool, j_exceeds_k: bool)
    ensures
        CoordCube::chosen_axis(i_exceeds_j, i_exceeds_k, j_exceeds_k) == Axis::I <==> i_exceeds_j
            && i_exceeds_k,
        CoordCube::chosen_axis(i_exceeds_j, i_exceeds_k, j_exceeds_k) == Axis::J <==> !(
        i_exceeds_j && i_exceeds_k) && j_exceeds_k,
        CoordCube::chosen_axis(i_exceeds_j, i_exceeds_k, j_exceeds_k) == Axis::K <==> !(
        i_exceeds_j && i_exceeds_k) && !j_exceeds_k,
{
}

} // verus!
