//! The frames that the supported devices take over USB.
//!
//! Each device shows LEDs or pixels from a buffer of bytes in a layout of
//! its own. The modules here lay the bytes out; sending them is left to the
//! program that owns the device.

use vstd::prelude::*;

use crate::led::effects::{LedConfiguration, LedGroup};

pub mod brows;
pub mod buttons;
pub mod display;
pub mod rpm_leds;

verus! {

/// What `group` asks of the LED with the number `led` of a device, counted
/// from zero, or `None` for an LED outside the group. The first LED of the
/// group is the LED of the device at the start position of the group, which
/// counts from one.
pub open spec fn led_of(group: &LedGroup, led: int) -> Option<LedConfiguration> {
    let index = led - (group.start_position@ - 1);
    if 0 <= index < group.leds@.len() {
        Some(group.leds@[index])
    } else {
        None
    }
}

/// How many LEDs of `group` lie on a device of `led_count` LEDs.
pub open spec fn leds_on_device(group: &LedGroup, led_count: nat) -> nat {
    let first = (group.start_position@ - 1) as nat;
    if first >= led_count {
        0
    } else if group.leds@.len() <= led_count - first {
        group.leds@.len()
    } else {
        (led_count - first) as nat
    }
}

/// The number of the first LED of `group` on the device, counted from zero,
/// and how many LEDs of the group lie on a device of `led_count` LEDs.
pub fn span_on_device(group: &LedGroup, led_count: usize) -> (span: (usize, usize))
    ensures
        span.0 == group.start_position@ - 1,
        span.1 == leds_on_device(group, led_count as nat),
        span.1 <= group.leds@.len(),
        span.1 > 0 ==> span.0 + span.1 <= led_count,
{
    let first = group.start_position.get() - 1;
    let count = if first >= led_count {
        0
    } else if group.leds.len() <= led_count - first {
        group.leds.len()
    } else {
        led_count - first
    };
    (first, count)
}

} // verus!
