use vstd::prelude::*;
use crate::cube::CoordCube;
use crate::cube::fits_i32;

verus! {

/// The smallest of three integers.
pub open spec fn min3(a: int, b: int, c: int) -> int {
    if a <= b && a <= c {
        a
    } else if b <= c {
        b
    } else {
        c
    }
}

/// The largest of three integers.
pub open spec fn max3(a: int, b: int, c: int) -> int {
    if a >= b && a >= c {
        a
    } else if b >= c {
        b
    } else {
        c
    }
}

/// IJK coordinates: the grid's canonical lattice representation, two axes
/// plus a redundant third, stored and transported by the rest of the system.
#[derive(Clone, Copy, Debug, PartialEq, Eq, Structural)]
pub struct CoordIJK {
    /// `i` component.
    pub i: i32,
    /// `j` component.
    pub j: i32,
    /// `k` component.
    pub k: i32,
}

/// The lattice image of a cube coordinate: negate `i`, keep `j`, force the
/// third component to zero, then bring the triple into canonical form by
/// subtracting its smallest component from all three.
pub open spec fn lattice_of_cube(c: CoordCube) -> (int, int, int) {
    let m = min3(-c.i, c.j as int, 0);
    (-c.i - m, c.j - m, -m)
}

/// The inverse mapping, from a lattice coordinate back to the cube
/// representation: only the pairwise differences of the lattice components
/// matter, so any triple of the same canonical class maps to the same cube
/// coordinate.
pub open spec fn cube_of_lattice(i: int, j: int, k: int) -> (int, int, int) {
    (k - i, j - k, i - j)
}

impl CoordIJK {
    /// Initializes a new IJK coordinate with the specified component values.
    pub fn new(i: i32, j: i32, k: i32) -> (r: Self)
        ensures
            r == (CoordIJK { i, j, k }),
    {
        Self { i, j, k }
    }

    /// Canonical form: all components non-negative, the smallest of them
    /// zero.
    pub open spec fn is_normalized(self) -> bool {
        &&& self.i >= 0
        &&& self.j >= 0
        &&& self.k >= 0
        &&& min3(self.i as int, self.j as int, self.k as int) == 0
    }

    /// Re-establishes the canonical form by subtracting the smallest
    /// component from all three, which keeps every pairwise difference.
    pub fn normalize(self) -> (r: Self)
        requires
            max3(self.i as int, self.j as int, self.k as int) - min3(
                self.i as int,
                self.j as int,
                self.k as int,
            ) <= i32::MAX,
        ensures
            r.i == self.i - min3(self.i as int, self.j as int, self.k as int),
            r.j == self.j - min3(self.i as int, self.j as int, self.k as int),
            r.k == self.k - min3(self.i as int, self.j as int, self.k as int),
            r.is_normalized(),
    {
        let m: i32 = if self.i <= self.j && self.i <= self.k {
            self.i
        } else if self.j <= self.k {
            self.j
        } else {
            self.k
        };
        Self { i: self.i - m, j: self.j - m, k: self.k - m }
    }

    /// The cube-to-lattice direction of the mapping: negate `i`, keep `j`,
    /// force the third component to zero, then normalize.
    pub fn from_cube(c: CoordCube) -> (r: Self)
        requires
            c.i > i32::MIN,
            max3(-c.i, c.j as int, 0) - min3(-c.i, c.j as int, 0) <= i32::MAX,
        ensures
            (r.i as int, r.j as int, r.k as int) == lattice_of_cube(c),
            r.is_normalized(),
    {
        Self::new(-c.i, c.j, 0).normalize()
    }

    /// The lattice-to-cube direction of the mapping, inverse to
    /// [`Self::from_cube`] on valid cube coordinates.
    pub fn to_cube(self) -> (r: CoordCube)
        requires
            fits_i32(self.k - self.i),
            fits_i32(self.j - self.k),
            fits_i32(self.i - self.j),
        ensures
            (r.i as int, r.j as int, r.k as int) == cube_of_lattice(
                self.i as int,
                self.j as int,
                self.k as int,
            ),
            r.is_valid(),
    {
        CoordCube { i: self.k - self.i, j: self.j - self.k, k: self.i - self.j }
    }
}

/// Round trip: converting a valid cube coordinate to the lattice
/// representation and back through the inverse mapping reproduces it exactly.
pub proof fn lemma_lattice_round_trip(c: CoordCube)
    requires
        c.is_valid(),
    ensures
        ({
            let (i, j, k) = lattice_of_cube(c);
            cube_of_lattice(i, j, k) == (c.i as int, c.j as int, c.k as int)
        }),
{
}

} // verus!
