//! What is remembered of the pointer between events.

use vstd::prelude::*;
use crate::scalar::Point;
use crate::scalar::Scalar;

verus! {

/// The last cursor position, in normalised view coordinates, and whether the
/// primary button is held.
#[derive(Clone, Copy, Debug, PartialEq, Eq, Structural)]
pub struct MouseState {
    pub position: Point,
    pub button_down: bool,
}

impl MouseState {
    /// The remembered position is a pair of real numbers.
    pub open spec fn valid(self) -> bool {
        self.position.finite()
    }

    /// The pointer before any event: at the centre, button released.
    pub open spec fn initial_mouse() -> MouseState {
        MouseState {
            position: Point { x: Scalar { bits: 0 }, y: Scalar { bits: 0 } },
            button_down: false,
        }
    }

    /// The pointer before any event.
    pub fn initial() -> (m: MouseState)
        ensures
            m == Self::initial_mouse(),
            m.valid(),
    {
        MouseState {
            position: Point { x: Scalar { bits: 0 }, y: Scalar { bits: 0 } },
            button_down: false,
        }
    }
}

} // verus!
