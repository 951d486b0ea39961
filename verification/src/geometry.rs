//! Points, velocities, directions and the bounding-sphere overlap test.

use vstd::prelude::*;

use crate::units::UNIT;

verus! {

/// A point in the world. `x` and `z` span the plane on which everything
/// moves, `y` is the height.
#[derive(Clone, Copy, Debug, PartialEq, Eq, Structural)]
pub struct Position {
    pub x: i64,
    pub y: i64,
    pub z: i64,
}

/// Distance covered per second along `x` and `z`.
#[derive(Clone, Copy, Debug, PartialEq, Eq, Structural)]
pub struct Velocity {
    pub x: i64,
    pub z: i64,
}

/// Largest deviation of a direction's squared length from `UNIT * UNIT`.
///
/// Rounding the cosine and sine of any angle to the nearest millionth stays
/// well within it.
pub const DIRECTION_TOLERANCE: i64 = 4_000_000;

/// The cosine and sine of an angle as a ghost pair.
pub ghost struct Heading {
    pub cos: int,
    pub sin: int,
}

impl Heading {
    /// The squared length of the vector `(cos, sin)`.
    pub open spec fn length_squared(self) -> int {
        self.cos * self.cos + self.sin * self.sin
    }

    /// The vector has length one up to rounding.
    pub open spec fn is_direction(self) -> bool {
        UNIT * UNIT - DIRECTION_TOLERANCE <= self.length_squared() <= UNIT * UNIT
            + DIRECTION_TOLERANCE
    }

    /// The vector has length exactly one.
    pub open spec fn is_unit(self) -> bool {
        self.length_squared() == UNIT * UNIT
    }
}

/// A direction on the movement plane: the cosine and sine of an angle in
/// millionths, of length one up to rounding.
#[derive(Clone, Copy, Debug)]
pub struct Direction {
    cos: i64,
    sin: i64,
}

impl View for Direction {
    type V = Heading;

    closed spec fn view(&self) -> Heading {
        Heading { cos: self.cos as int, sin: self.sin as int }
    }
}

impl Direction {
    #[verifier::type_invariant]
    spec fn valid(self) -> bool {
        self@.is_direction()
    }

    /// A direction from the cosine and sine of its angle, if the two describe
    /// a vector of length one up to rounding.
    pub fn new(cos: i64, sin: i64) -> (r: Option<Direction>)
        ensures
            r.is_some() <==> (Heading { cos: cos as int, sin: sin as int }).is_direction(),
            r matches Some(d) ==> d@ == (Heading { cos: cos as int, sin: sin as int }),
    {
        let limit: i64 = 2 * UNIT;
        if cos < -limit || cos > limit || sin < -limit || sin > limit {
            proof {
                lemma_long_vector(cos as int, sin as int);
            }
            return None;
        }
        assert(0 <= cos * cos <= 4_000_000_000_000) by (nonlinear_arith)
            requires
                -2_000_000 <= cos <= 2_000_000,
        ;
        assert(0 <= sin * sin <= 4_000_000_000_000) by (nonlinear_arith)
            requires
                -2_000_000 <= sin <= 2_000_000,
        ;
        let length_squared: i64 = cos * cos + sin * sin;
        let one: i64 = UNIT * UNIT;
        if one - DIRECTION_TOLERANCE <= length_squared && length_squared <= one
            + DIRECTION_TOLERANCE {
            Some(Direction { cos, sin })
        } else {
            None
        }
    }

    /// The cosine of the direction's angle, in millionths.
    pub fn cos(&self) -> (r: i64)
        ensures
            r == self@.cos,
            self@.is_direction(),
    {
        proof {
            use_type_invariant(self);
        }
        self.cos
    }

    /// The sine of the direction's angle, in millionths.
    pub fn sin(&self) -> (r: i64)
        ensures
            r == self@.sin,
            self@.is_direction(),
    {
        proof {
            use_type_invariant(self);
        }
        self.sin
    }
}

/// A vector with a component beyond twice the unit is no direction.
proof fn lemma_long_vector(cos: int, sin: int)
    requires
        cos < -2 * UNIT || cos > 2 * UNIT || sin < -2 * UNIT || sin > 2 * UNIT,
    ensures
        !(Heading { cos, sin }).is_direction(),
{
    assert(cos * cos >= 0 && sin * sin >= 0) by (nonlinear_arith);
    if cos < -2 * UNIT || cos > 2 * UNIT {
        assert(cos * cos > 4_000_000_000_000) by (nonlinear_arith)
            requires
                cos < -2_000_000 || cos > 2_000_000,
        ;
    } else {
        assert(sin * sin > 4_000_000_000_000) by (nonlinear_arith)
            requires
                sin < -2_000_000 || sin > 2_000_000,
        ;
    }
}

/// The distance between two coordinates.
pub open spec fn gap(a: int, b: int) -> int {
    if a >= b {
        a - b
    } else {
        b - a
    }
}

/// The squared distance between two points.
pub open spec fn distance_squared(a: Position, b: Position) -> int {
    (a.x - b.x) * (a.x - b.x) + (a.y - b.y) * (a.y - b.y) + (a.z - b.z) * (a.z - b.z)
}

/// The squared distance between two points, measured on the movement plane.
pub open spec fn planar_distance_squared(a: Position, b: Position) -> int {
    (a.x - b.x) * (a.x - b.x) + (a.z - b.z) * (a.z - b.z)
}

/// A sphere that stands for an entity in the overlap test.
#[derive(Clone, Copy, Debug, PartialEq, Eq, Structural)]
pub struct BoundingSphere {
    pub center: Position,
    pub radius: u32,
}

impl BoundingSphere {
    /// Two spheres overlap when their centers are no farther apart than the
    /// sum of their radii; touching counts.
    pub open spec fn overlaps(self, other: BoundingSphere) -> bool {
        distance_squared(self.center, other.center) <= (self.radius + other.radius) * (self.radius
            + other.radius)
    }

    /// The sphere of the given radius around `center`.
    pub fn new(center: Position, radius: u32) -> (r: BoundingSphere)
        ensures
            r == (BoundingSphere { center, radius }),
    {
        BoundingSphere { center, radius }
    }

    /// Whether the two spheres overlap.
    pub fn intersects(&self, other: &BoundingSphere) -> (r: bool)
        ensures
            r == self.overlaps(*other),
    {
        let reach: u64 = self.radius as u64 + other.radius as u64;
        let dx: u64 = coordinate_gap(self.center.x, other.center.x);
        let dy: u64 = coordinate_gap(self.center.y, other.center.y);
        let dz: u64 = coordinate_gap(self.center.z, other.center.z);
        proof {
            lemma_square_of_gap(self.center.x as int, other.center.x as int);
            lemma_square_of_gap(self.center.y as int, other.center.y as int);
            lemma_square_of_gap(self.center.z as int, other.center.z as int);
            lemma_square_monotonic(dx as int, reach as int);
            lemma_square_monotonic(dy as int, reach as int);
            lemma_square_monotonic(dz as int, reach as int);
            lemma_square_monotonic(reach as int, 0x1_ffff_fffe);
        }
        if dx > reach || dy > reach || dz > reach {
            return false;
        }
        let reach_squared: u128 = (reach as u128) * (reach as u128);
        let sum: u128 = (dx as u128) * (dx as u128) + (dy as u128) * (dy as u128) + (dz as u128)
            * (dz as u128);
        sum <= reach_squared
    }
}

/// The distance between two coordinates.
fn coordinate_gap(a: i64, b: i64) -> (r: u64)
    ensures
        r == gap(a as int, b as int),
{
    if a >= b {
        ((a as i128) - (b as i128)) as u64
    } else {
        ((b as i128) - (a as i128)) as u64
    }
}

/// A difference and its absolute value have the same square.
proof fn lemma_square_of_gap(a: int, b: int)
    ensures
        gap(a, b) * gap(a, b) == (a - b) * (a - b),
{
    assert((b - a) * (b - a) == (a - b) * (a - b)) by (nonlinear_arith);
}

/// Squaring keeps the order of two distances.
proof fn lemma_square_monotonic(a: int, b: int)
    requires
        0 <= a,
        0 <= b,
    ensures
        a <= b ==> a * a <= b * b,
        a > b ==> a * a > b * b,
        0 <= a * a,
{
    assert(a <= b ==> a * a <= b * b) by (nonlinear_arith)
        requires
            0 <= a,
            0 <= b,
    ;
    assert(a > b ==> a * a > b * b) by (nonlinear_arith)
        requires
            0 <= a,
            0 <= b,
    ;
    assert(0 <= a * a) by (nonlinear_arith);
}

} // verus!
