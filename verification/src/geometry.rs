//! Points, rectangles and the per-degree ring tables.

use vstd::prelude::*;

verus! {

/// Number of whole degrees in a full turn; the length of every ring table.
pub const DEGREES: usize = 360;

/// A pixel position; `y` grows downwards.
#[derive(Clone, Copy, Debug, PartialEq, Eq, Structural)]
pub struct Point {
    pub x: i32,
    pub y: i32,
}

/// An axis-aligned pixel area given by its top left corner and its size.
#[derive(Clone, Copy, Debug, PartialEq, Eq, Structural)]
pub struct Rectangle {
    pub top_left: Point,
    pub width: u32,
    pub height: u32,
}

impl Rectangle {
    /// Whether the pixel in column `x` of row `y` lies in the area.
    pub open spec fn contains(self, x: int, y: int) -> bool {
        &&& self.top_left.x <= x < self.top_left.x + self.width
        &&& self.top_left.y <= y < self.top_left.y + self.height
    }
}

/// The magnitude of `v`.
pub open spec fn magnitude(v: int) -> int {
    if v < 0 { -v } else { v }
}

impl Point {
    /// Whether the point lies no further than `reach` from the origin along
    /// either axis.
    pub open spec fn within(self, reach: int) -> bool {
        -reach <= self.x <= reach && -reach <= self.y <= reach
    }
}

/// Whether `offsets` can be the displacements of one ring of the given
/// radius: one entry per whole degree, none further from the centre along
/// either axis than the radius.
pub open spec fn is_ring(radius: int, offsets: Seq<Point>) -> bool {
    &&& offsets.len() == DEGREES
    &&& forall|a: int| 0 <= a < DEGREES ==> (#[trigger] offsets[a]).within(magnitude(radius))
}

/// Displacements from the centre of a circle, one for each whole degree.
///
/// Entry `a` is where the direction of `a` degrees meets the circle of the
/// ring's radius, rounded towards the centre. A negative radius mirrors the
/// ring through the centre.
pub struct Ring {
    radius: i32,
    offsets: Vec<Point>,
}

impl View for Ring {
    type V = Seq<Point>;

    closed spec fn view(&self) -> Seq<Point> {
        self.offsets@
    }
}

impl Ring {
    #[verifier::type_invariant]
    spec fn well_formed(&self) -> bool {
        is_ring(self.radius as int, self.offsets@)
    }

    /// The radius that the ring was made for.
    pub closed spec fn spec_radius(&self) -> int {
        self.radius as int
    }

    /// Makes a ring of `offsets`, or nothing where they cannot be the
    /// displacements of a ring of that radius.
    pub fn new(radius: i32, offsets: Vec<Point>) -> (ring: Option<Ring>)
        ensures
            ring is Some <==> is_ring(radius as int, offsets@),
            ring matches Some(r) ==> r.spec_radius() == radius && r@ == offsets@,
    {
        if offsets.len() != DEGREES {
            return None;
        }
        let reach: i64 = if radius < 0 { -(radius as i64) } else { radius as i64 };
        let mut a: usize = 0;
        while a < DEGREES
            invariant
                a <= DEGREES,
                offsets.len() == DEGREES,
                reach == magnitude(radius as int),
                forall|b: int| 0 <= b < a ==> (#[trigger] offsets@[b]).within(reach as int),
            decreases DEGREES - a,
        {
            let p: Point = offsets[a];
            let dx: i64 = if p.x < 0 { -(p.x as i64) } else { p.x as i64 };
            let dy: i64 = if p.y < 0 { -(p.y as i64) } else { p.y as i64 };
            if dx > reach || dy > reach {
                return None;
            }
            a += 1;
        }
        Some(Ring { radius, offsets })
    }

    /// The radius that the ring was made for.
    pub fn radius(&self) -> (radius: i32)
        ensures
            radius == self.spec_radius(),
    {
        self.radius
    }

    /// The displacement at `degrees`.
    pub fn offset(&self, degrees: usize) -> (offset: Point)
        requires
            degrees < DEGREES,
        ensures
            offset == self@[degrees as int],
            offset.within(magnitude(self.spec_radius())),
    {
        proof {
            use_type_invariant(self);
        }
        self.offsets[degrees]
    }
}

} // verus!
