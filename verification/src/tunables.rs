//! The parameters of the rendering that a user may tune while it runs.

use vstd::prelude::*;
use crate::scalar::Scalar;

verus! {

/// Bit pattern of the default escape threshold and scroll sensitivity, four.
pub const FOUR_BITS: u32 = 0x4080_0000;

/// Bit pattern of the default pan speed, the binary32 nearest to one tenth.
pub const TENTH_BITS: u32 = 0x3DCC_CCCD;

/// The default iteration cap.
pub const DEFAULT_MAX_ITERATION: i32 = 100;

/// A parameter set, live or proposed. A proposed set becomes live only when it
/// is [`valid`](Tunables::valid).
#[derive(Clone, Copy, Debug, PartialEq, Eq, Structural)]
pub struct Tunables {
    /// Squared magnitude beyond which a point counts as escaped.
    pub escape_threshold: Scalar,
    /// Iteration cap of the per-pixel computation.
    pub max_iteration: i32,
    /// Step of a keyboard pan or zoom, as a fraction of the current scale.
    pub pan_speed: Scalar,
    /// How slowly the wheel zooms: greater means a smaller step per notch.
    pub scroll_sensitivity: Scalar,
    /// Draw with the extended-precision program.
    pub use_extended_precision: bool,
}

impl Tunables {
    /// The three real parameters are real numbers above zero and the iteration
    /// cap is not negative.
    pub open spec fn valid(self) -> bool {
        &&& self.escape_threshold.positive()
        &&& self.max_iteration >= 0
        &&& self.pan_speed.positive()
        &&& self.scroll_sensitivity.positive()
    }

    /// The same parameters with another answer to which precision to draw
    /// with.
    pub open spec fn with_precision(self, use_extended_precision: bool) -> Tunables {
        Tunables {
            escape_threshold: self.escape_threshold,
            max_iteration: self.max_iteration,
            pan_speed: self.pan_speed,
            scroll_sensitivity: self.scroll_sensitivity,
            use_extended_precision,
        }
    }

    /// The parameters a session starts with.
    pub open spec fn default_tunables() -> Tunables {
        Tunables {
            escape_threshold: Scalar { bits: FOUR_BITS },
            max_iteration: DEFAULT_MAX_ITERATION,
            pan_speed: Scalar { bits: TENTH_BITS },
            scroll_sensitivity: Scalar { bits: FOUR_BITS },
            use_extended_precision: false,
        }
    }

    /// The parameters a session starts with: threshold 4, 100 iterations,
    /// speed 0.1, sensitivity 4, standard precision.
    pub fn initial() -> (t: Tunables)
        ensures
            t == Self::default_tunables(),
            t.valid(),
    {
        let t = Tunables {
            escape_threshold: Scalar { bits: FOUR_BITS },
            max_iteration: DEFAULT_MAX_ITERATION,
            pan_speed: Scalar { bits: TENTH_BITS },
            scroll_sensitivity: Scalar { bits: FOUR_BITS },
            use_extended_precision: false,
        };
        proof {
            t.escape_threshold.lemma_positive_patterns();
            t.pan_speed.lemma_positive_patterns();
        }
        t
    }

    /// Whether the set may become live.
    pub fn is_valid(&self) -> (r: bool)
        ensures
            r == self.valid(),
    {
        self.escape_threshold.is_positive() && self.max_iteration >= 0
            && self.pan_speed.is_positive() && self.scroll_sensitivity.is_positive()
    }
}

} // verus!
