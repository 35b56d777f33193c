//! Containers that react to the engine reaching its redline.

use vstd::prelude::*;

use super::SimpleBlinkContainer;

verus! {

/// The configuration of the LEDs that show that the redline is reached.
pub type RedlineReachedContainer = SimpleBlinkContainer;

} // verus!
