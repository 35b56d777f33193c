//! Containers that react to a flag waved on the track.

use vstd::prelude::*;

use super::SimpleBlinkContainer;

verus! {

/// The configuration of the LEDs that show a flag.
pub type FlagContainer = SimpleBlinkContainer;

} // verus!
