//! The viewport transform: a scale and a translation of the plane.

use vstd::prelude::*;
use crate::scalar::Point;
use crate::scalar::Scalar;

verus! {

/// The bit pattern of the number one.
pub const ONE_BITS: u32 = 0x3F80_0000;

/// The scale and pan applied to the picture in each frame.
#[derive(Clone, Copy, Debug, PartialEq, Eq, Structural)]
pub struct ViewState {
    /// World units per screen unit.
    pub scale: Scalar,
    /// The world point shown at the centre of the screen.
    pub position: Point,
}

impl ViewState {
    /// The scale is a real number above zero and the position is a pair of real
    /// numbers.
    pub open spec fn valid(self) -> bool {
        self.scale.positive() && self.position.finite()
    }

    /// The view a session starts with: scale one, centred on the origin.
    pub open spec fn initial_view() -> ViewState {
        ViewState {
            scale: Scalar { bits: ONE_BITS },
            position: Point { x: Scalar { bits: 0 }, y: Scalar { bits: 0 } },
        }
    }

    /// The view a session starts with.
    pub fn initial() -> (v: ViewState)
        ensures
            v == Self::initial_view(),
            v.valid(),
    {
        let v = ViewState {
            scale: Scalar { bits: ONE_BITS },
            position: Point { x: Scalar { bits: 0 }, y: Scalar { bits: 0 } },
        };
        proof {
            v.scale.lemma_positive_patterns();
        }
        v
    }

    /// Whether the view may be drawn with.
    pub fn is_valid(&self) -> (r: bool)
        ensures
            r == self.valid(),
    {
        self.scale.is_positive() && self.position.is_finite()
    }
}

/// One of the four directions of a keyboard pan.
#[derive(Clone, Copy, Debug, PartialEq, Eq, Structural)]
pub enum Direction {
    Up,
    Down,
    Left,
    Right,
}

impl Direction {
    /// The unit step of a direction along the x and y axes. Up is towards
    /// greater y, right towards greater x.
    pub open spec fn step(self) -> (int, int) {
        match self {
            Direction::Up => (0, 1),
            Direction::Down => (0, -1),
            Direction::Left => (-1, 0),
            Direction::Right => (1, 0),
        }
    }

    /// The unit step of the direction: a keyboard pan adds this many times
    /// `speed * scale` to each axis of the position.
    pub fn unit_step(self) -> (d: (i8, i8))
        ensures
            (d.0 as int, d.1 as int) == self.step(),
    {
        match self {
            Direction::Up => (0, 1),
            Direction::Down => (0, -1),
            Direction::Left => (-1, 0),
            Direction::Right => (1, 0),
        }
    }
}

} // verus!
