//! What the motion classifier tells the scroll emitter.

use vstd::prelude::*;

verus! {

/// An intent passed from the classifier to the emitter.
#[derive(Clone, Copy, Debug, PartialEq, Eq, Structural)]
pub enum ScrollCommand {
    /// A drag began.
    Start,
    /// The drag ended.
    Stop,
    /// The scroll intensity changed: the sign is the direction, the absolute
    /// value the magnitude per emitted event.
    Update(i32),
}

} // verus!
