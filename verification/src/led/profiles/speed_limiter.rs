//! Containers that animate the LEDs while the speed limiter is on.

use vstd::prelude::*;

use crate::color::Color;
use crate::positive::Positive;
use crate::time::Duration;

verus! {

/// The configuration of the speed limiter animation. It is part of a
/// profile, and no effect is made of it.
#[derive(Debug, Clone, PartialEq, Eq)]
pub struct SpeedLimiterAnimationContainer {
    pub description: String,
    pub is_enabled: bool,
    pub led_count: Positive,
    pub start_position: Positive,
    pub color_1_alternate: Color,
    pub color_2_alternate: Color,
    pub color_1_single_color: Color,
    pub color_2_single_color: Color,
    pub alternate_delay: Duration,
    pub alternate_enabled: bool,
    pub blink_color_1_delay: Duration,
    pub limiter_behavior: u8,
    pub use_alternate_2: bool,
    pub use_alternate: bool,
    pub alternate_2_blank_background: bool,
}

} // verus!
