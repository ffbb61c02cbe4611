//! The timing-curve selector.
//!
//! [`Ease`] names the sixteen timing curves an animation can run along.  A
//! curve maps normalized progress to eased progress and may overshoot the
//! `[0, 1]` band (the Back and Elastic families).  The curve formulas
//! themselves are transcendental floating-point functions and are evaluated
//! by the host on its scalar type through the [`Delta`] hook; this crate
//! treats the eased result as an opaque progress scalar (see
//! [`crate::fixed`]).

use vstd::prelude::*;

verus! {

/// The sixteen named timing curves.
#[derive(Clone, Copy, Debug, PartialEq, Eq, Structural)]
pub enum Ease {
    BackIn,
    BackInOut,
    BackOut,
    BounceIn,
    BounceInOut,
    BounceOut,
    ElasticIn,
    ElasticInOut,
    ElasticOut,
    ExpoIn,
    ExpoInOut,
    ExpoOut,
    Linear,
    PowerIn,
    PowerInOut,
    PowerOut,
}

/// Evaluation of a timing curve on a progress value.
///
/// The host implements this for its progress scalar and hands the eased
/// result back to the update driver as a fixed-point delta.
pub trait Delta: Sized {
    /// The eased progress that `ease` yields at progress `self`.
    fn delta(self, ease: Ease) -> Self;
}

} // verus!
