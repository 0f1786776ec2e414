use vstd::prelude::*;

verus! {

/// Error raised when a geometry value is invalid, carrying a human-readable
/// reason; the only error kind of this core, reported at point construction
/// when a coordinate component is non-finite.
#[derive(Clone, Copy, Debug, PartialEq, Eq)]
pub struct InvalidGeometry {
    /// Human-readable description of what is wrong with the value.
    pub reason: &'static str,
}

impl InvalidGeometry {
    /// Initializes a new error with the given reason.
    pub fn new(reason: &'static str) -> (r: Self)
        ensures
            r.reason@ == reason@,
    {
        Self { reason }
    }
}

/// A resolution of the grid hierarchy: one of sixteen discrete levels,
/// coarsest first, controlling cell size.
#[derive(Clone, Copy, Debug, PartialEq, Eq, Structural)]
pub struct Resolution {
    value: u8,
}

impl Resolution {
    /// The numeric level.
    pub closed spec fn level(self) -> u8 {
        self.value
    }

    /// A resolution is well-formed when its level is in the supported range.
    pub open spec fn wf(self) -> bool {
        self.level() <= 15
    }

    /// A resolution for every level in the supported range, and nothing
    /// beyond it.
    pub fn new(value: u8) -> (r: Option<Self>)
        ensures
            (value <= 15) == (r is Some),
            r matches Some(res) ==> res.level() == value && res.wf(),
    {
        if value <= 15 {
            Some(Self { value })
        } else {
            None
        }
    }

    /// The numeric level of the resolution.
    pub fn value(&self) -> (r: u8)
        ensures
            r == self.level(),
    {
        self.value
    }
}

/// The opaque identifier of one grid cell at one resolution; produced by the
/// grid's indexing component and carried through this core unexamined.
#[derive(Clone, Copy, Debug, PartialEq, Eq, Hash, Structural)]
pub struct CellIndex {
    bits: u64,
}

impl CellIndex {
    /// The raw encoded index.
    pub closed spec fn id(self) -> u64 {
        self.bits
    }

    /// Initializes a cell index from its raw encoding.
    pub fn new(bits: u64) -> (r: Self)
        ensures
            r.id() == bits,
    {
        Self { bits }
    }

    /// The raw encoding of the index.
    pub fn get(&self) -> (r: u64)
        ensures
            r == self.id(),
    {
        self.bits
    }
}

/// True of the bit pattern of a binary64 floating-point value exactly when
/// that value is finite: NaN and the two infinities are exactly the patterns
/// whose eleven exponent bits are all ones.
pub open spec fn bits_finite(b: u64) -> bool {
    (b >> 52) & 0x7ff != 0x7ff
}

/// Finiteness test on a binary64 bit pattern.
fn is_finite_bits(b: u64) -> (r: bool)
    ensures
        r == bits_finite(b),
{
    (b >> 52) & 0x7ff != 0x7ff
}

/// A single point in 2D space.
///
/// The coordinates are interpreted as (longitude, latitude) in radians and
/// held as the bit patterns of the two binary64 values, so that the
/// finiteness invariant is a plain property of the bits; the surrounding
/// code converts a floating-point pair to and from this form losslessly.
#[derive(Clone, Copy, Debug, PartialEq, Eq, Structural)]
pub struct Point {
    lng: u64,
    lat: u64,
}

impl Point {
    /// Bit pattern of the longitude coordinate, in radians.
    pub closed spec fn lng(self) -> u64 {
        self.lng
    }

    /// Bit pattern of the latitude coordinate, in radians.
    pub closed spec fn lat(self) -> u64 {
        self.lat
    }

    /// Both coordinates of a constructed point are finite.
    pub open spec fn wf(self) -> bool {
        bits_finite(self.lng()) && bits_finite(self.lat())
    }

    /// Check that the point's coordinates are finite.
    fn check_coords(x: u64, y: u64) -> (r: Result<(), InvalidGeometry>)
        ensures
            (r is Ok) == (bits_finite(x) && bits_finite(y)),
            r matches Err(e) ==> e.reason@ == "x and y must be valid"@,
    {
        if !(is_finite_bits(x) && is_finite_bits(y)) {
            return Err(InvalidGeometry::new("x and y must be valid"));
        }
        Ok(())
    }

    /// Initialize a new point from a coordinate pair in radians, each
    /// coordinate given as the bit pattern of its binary64 value.
    ///
    /// Out-of-range angles are accepted: range legality is the concern of
    /// the downstream angular-coordinate conversion.
    ///
    /// # Errors
    ///
    /// [`InvalidGeometry`] if either coordinate is non-finite (NaN or an
    /// infinity).
    pub fn from_radians(x: u64, y: u64) -> (r: Result<Self, InvalidGeometry>)
        ensures
            (r is Ok) == (bits_finite(x) && bits_finite(y)),
            r matches Ok(p) ==> p.lng() == x && p.lat() == y && p.wf(),
            r matches Err(e) ==> e.reason@ == "x and y must be valid"@,
    {
        match Self::check_coords(x, y) {
            Ok(()) => Ok(Self { lng: x, lat: y }),
            Err(e) => Err(e),
        }
    }

    /// Bit pattern of the longitude coordinate, in radians.
    pub fn lng_bits(&self) -> (r: u64)
        ensures
            r == self.lng(),
    {
        self.lng
    }

    /// Bit pattern of the latitude coordinate, in radians.
    pub fn lat_bits(&self) -> (r: u64)
        ensures
            r == self.lat(),
    {
        self.lat
    }

    /// A point always produces exactly one cell, at every resolution: the
    /// bound that traversal code relies on to size output buffers without
    /// over-allocating.
    pub fn max_cells_count(&self, _resolution: Resolution) -> (r: usize)
        ensures
            r == 1,
    {
        1
    }

    /// The cells containing the point at the given resolution: always
    /// exactly one.
    ///
    /// Resolving the point's radian pair to its cell is the job of the
    /// grid's angular-coordinate component, a floating-point computation
    /// outside this core; `cell` is that component's result for this point
    /// at `_resolution`, and the returned sequence wraps it. The conversion
    /// it performs is guaranteed to succeed for a constructed point, whose
    /// coordinates are finite by construction.
    pub fn to_cells(&self, _resolution: Resolution, cell: CellIndex) -> (r: Vec<CellIndex>)
        ensures
            r@.len() == 1,
            r@[0] == cell,
    {
        let mut cells: Vec<CellIndex> = Vec::new();
        cells.push(cell);
        cells
    }
}

} // verus!
