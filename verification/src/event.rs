//! Completion notifications.

use vstd::prelude::*;

verus! {

/// Raised when an animation's duration timer reaches its end.
///
/// Emitted once per completed cycle: a repeating animation raises it at the
/// end of every cycle, a one-shot animation exactly once, on the tick that
/// also removes its state.
#[derive(Clone, Copy, Debug, PartialEq, Eq, Structural)]
pub struct CompleteEvent {
    /// Identity of the target whose animation completed.
    pub entity: u64,
}

} // verus!
