//! Points of the unit square in fixed-point form.

use vstd::prelude::*;

verus! {

/// Number of fraction bits in a coordinate.
pub const COORDINATE_BITS: u64 = 53;

/// Denominator of every coordinate: two to the power `COORDINATE_BITS`.
pub const SCALE: u64 = 9007199254740992;

/// `SCALE` is two to the power `COORDINATE_BITS`, and a 64-bit draw shifted
/// down to that many bits is the draw divided by what was shifted out.
pub proof fn lemma_scale(draw: u64)
    ensures
        SCALE == 1u64 << COORDINATE_BITS,
        draw >> ((64 - COORDINATE_BITS) as u64) == draw / 2048,
        draw / 2048 < SCALE,
{
    assert(9007199254740992u64 == 1u64 << 53u64) by (bit_vector);
    assert(draw >> 11u64 == draw / 2048) by (bit_vector);
}

/// A point whose coordinates are `x / SCALE` and `y / SCALE`.
#[derive(Clone, Copy, Debug, PartialEq, Eq)]
pub struct Point {
    x: u64,
    y: u64,
}

impl Point {
    #[verifier::type_invariant]
    spec fn bounded(self) -> bool {
        self.x < SCALE && self.y < SCALE
    }

    /// Whether the point lies in the unit square: each coordinate, as the
    /// fraction of its numerator over `SCALE`, is at least 0 and below 1.
    pub open spec fn in_unit_square(self) -> bool {
        0 <= self.x_spec() < SCALE && 0 <= self.y_spec() < SCALE
    }

    /// Numerator of the horizontal coordinate.
    pub closed spec fn x_spec(self) -> nat {
        self.x as nat
    }

    /// Numerator of the vertical coordinate.
    pub closed spec fn y_spec(self) -> nat {
        self.y as nat
    }

    /// The point with the given numerators, if both lie below `SCALE`.
    pub fn new(x: u64, y: u64) -> (r: Option<Point>)
        ensures
            r is Some <==> x < SCALE && y < SCALE,
            r is Some ==> r->0.x_spec() == x && r->0.y_spec() == y && r->0.in_unit_square(),
    {
        if x < SCALE && y < SCALE {
            Some(Point { x, y })
        } else {
            None
        }
    }

    /// Builds a point from two 64-bit draws by keeping the 53 most
    /// significant bits of each.
    pub fn from_draws(a: u64, b: u64) -> (p: Point)
        ensures
            p.x_spec() == a / 2048,
            p.y_spec() == b / 2048,
            p.in_unit_square(),
    {
        let x: u64 = a >> (64 - COORDINATE_BITS);
        let y: u64 = b >> (64 - COORDINATE_BITS);
        proof {
            lemma_scale(a);
            lemma_scale(b);
        }
        Point { x, y }
    }

    /// Numerator of the horizontal coordinate, always below `SCALE`.
    pub fn x(&self) -> (r: u64)
        ensures
            r == self.x_spec(),
            self.in_unit_square(),
    {
        proof {
            use_type_invariant(self);
        }
        self.x
    }

    /// Numerator of the vertical coordinate, always below `SCALE`.
    pub fn y(&self) -> (r: u64)
        ensures
            r == self.y_spec(),
            self.in_unit_square(),
    {
        proof {
            use_type_invariant(self);
        }
        self.y
    }
}

} // verus!
