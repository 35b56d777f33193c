//! Containers that react to the RPM of the engine.

use vstd::prelude::*;

use super::{InvalidProfile, InvalidReason};
use crate::color::Color;
use crate::fixed::Fixed;
use crate::positive::Positive;
use crate::time::Duration;

verus! {

/// The configuration for a LED profile container which turns on LEDs based on
/// the value of the RPM of the engine.
///
/// As the RPM increases more LEDs will be turned on, the color of the LEDs will
/// be configured to follow a color gradient beginning with the
/// [`RpmContainer::start_color`] and ending in [`RpmContainer::end_color`].
#[derive(Debug, Clone, PartialEq, Eq)]
pub struct RpmContainer {
    /// The human readable description of the [`RpmContainer`].
    pub description: String,
    /// Is this container enabled.
    pub is_enabled: bool,
    /// The number of the first LED this container should control.
    pub start_position: Positive,
    /// The total number of LEDs this container should control.
    pub led_count: Positive,
    /// Should we use the specified percentages to calculate how many LEDs need
    /// to be turned on instead of the raw [`RpmContainer::rpm_min`] and
    /// [`RpmContainer::rpm_max`] values?
    pub use_percent: bool,
    /// The percentage of the RPM that should start turning LEDs on.
    pub percent_min: Fixed,
    /// The percentage of the RPM which should be considered the maximum RPM, or
    /// rather when the gradient should reach its end and all the LEDs
    /// should be turned on.
    pub percent_max: Fixed,
    /// The value of the RPM that should start turning LEDs on.
    pub rpm_min: Fixed,
    /// The value of the RPM which should be considered the maximum RPM, or
    /// rather when the gradient should reach its end and all the LEDs
    /// should be turned on.
    pub rpm_max: Fixed,
    /// The first color in the gradient, the gradient will begin with this color
    /// and transition towards the [`RpmContainer::end_color`].
    pub start_color: Color,
    /// The final color in the gradient.
    pub end_color: Color,
    /// Should the LEDs be filled out from right to left instead of the usual
    /// left to right direction?
    pub right_to_left: bool,
    /// Should the LEDs blink when the maximum RPM of the car is reached, the so
    /// called redline. This is not the [`RpmContainer::rpm_max`] setting,
    /// the maximum RPM of the car is defined by the simulator.
    pub blink_enabled: bool,
    /// How long should the LED stay on and off when blinking, in other words
    /// how long do we wait before we change the state of the LED.
    pub blink_delay: Duration,
    /// Should the LEDs also blink when the maximum RPM is reached in the last
    /// gear?
    pub blink_on_last_gear: bool,
    pub use_led_dimming: bool,
    /// Should the same color, the one that is furthest on the gradient and
    /// enabled because of the RPM value, be used for all the currently
    /// active LEDs?
    pub gradient_on_all: bool,
    /// Should all the LEDs be turned on from the start, only the colors will
    /// differ based on the RPM. This only works in conjunction with the
    /// [`RpmContainer::gradient_on_all`] setting.
    pub fill_all_leds: bool,
}

/// The configuration for a LED profile container which turns on segments of
/// LEDs based on the value of the RPM of the engine.
///
/// This container will divide a larger number of LEDs into smaller subsets or
/// segments. Each segment can have a different configuration.
#[derive(Debug, Clone, PartialEq, Eq)]
pub struct RpmSegmentsContainer {
    /// The human readable description of the container.
    pub description: String,
    /// Is this container enabled.
    pub is_enabled: bool,
    /// The number of the first LED this container should control.
    pub start_position: Positive,
    /// Should the LEDs blink when the redline has been reached?
    pub blink_enabled: bool,
    /// How long should the LED stay on and off when blinking, in other words
    /// how long do we wait before we change the state of the LED.
    pub blink_delay: Duration,
    /// Should the LEDs only (or as well?) blink when the maximum RPM or
    /// percentage of it are reached in the last gear?
    pub blink_on_last_gear: bool,
    /// The list of LED segments.
    pub segments: Vec<LedSegment>,
}

/// The unit in which the segments of a container give the RPM at which they
/// turn on.
#[derive(Debug, Clone, Copy, PartialEq, Eq)]
pub enum RpmMode {
    /// Revolutions per minute.
    Rpm,
    /// A percentage of the maximum RPM of the car.
    RpmPercentage,
    /// A percentage of the RPM at which the redline begins.
    RedlinePercentage,
}

/// The RPM from which on a segment is turned on.
#[derive(Debug, Clone, Copy, PartialEq, Eq)]
pub enum StartValue {
    Rpm(Fixed),
    RpmPercentage(Fixed),
    RedlinePercentage(Fixed),
}

/// One segment of an [`RpmSegmentsContainer`].
#[derive(Debug, Clone, Copy, PartialEq, Eq)]
pub struct LedSegment {
    pub start_value: StartValue,
    pub normal_color: Color,
    pub blinking_color: Option<Color>,
    pub led_count: Positive,
}

impl RpmMode {
    /// The mode that a profile writes as the number `code`.
    pub open spec fn spec_from_code(code: u8) -> Option<RpmMode> {
        if code == 0 {
            Some(RpmMode::RpmPercentage)
        } else if code == 1 {
            Some(RpmMode::RedlinePercentage)
        } else if code == 2 {
            Some(RpmMode::Rpm)
        } else {
            None
        }
    }

    /// Reads the number that the field `field` of a profile gives as its RPM
    /// mode. Any number but 0, 1 and 2 is refused, with the name of the field.
    pub fn from_code(field: &str, code: u8) -> (mode: Result<RpmMode, InvalidProfile>)
        ensures
            match Self::spec_from_code(code) {
                Some(known) => mode == Ok::<RpmMode, InvalidProfile>(known),
                None => mode matches Err(e) && e.field@ == field@ && e.reason
                    == InvalidReason::UnknownRpmMode,
            },
    {
        if code == 0 {
            Ok(RpmMode::RpmPercentage)
        } else if code == 1 {
            Ok(RpmMode::RedlinePercentage)
        } else if code == 2 {
            Ok(RpmMode::Rpm)
        } else {
            Err(InvalidProfile { field: field.to_owned(), reason: InvalidReason::UnknownRpmMode })
        }
    }
}

impl StartValue {
    pub open spec fn spec_new(mode: RpmMode, start_value: Fixed) -> StartValue {
        match mode {
            RpmMode::Rpm => StartValue::Rpm(start_value),
            RpmMode::RpmPercentage => StartValue::RpmPercentage(start_value),
            RpmMode::RedlinePercentage => StartValue::RedlinePercentage(start_value),
        }
    }
}

/// One segment as a profile describes it: its value is a plain number, in the
/// unit that the RPM mode of its container gives, and a switch says whether
/// its blink colour is used.
#[derive(Debug, Clone, Copy, PartialEq, Eq)]
pub struct LedSegmentHelper {
    pub start_value: Fixed,
    pub normal_color: Color,
    pub blinking_color: Color,
    pub use_blinking_color: bool,
    pub led_count: Positive,
}

/// A container of segments as a profile describes it: the RPM mode stands
/// beside the segments, which give their values as plain numbers.
#[derive(Debug, Clone, PartialEq, Eq)]
pub struct RpmSegmentsContainerHelper {
    pub description: String,
    pub is_enabled: bool,
    pub start_position: Positive,
    pub blink_enabled: bool,
    pub blink_delay: Duration,
    pub blink_on_last_gear: bool,
    pub segments: Vec<LedSegmentHelper>,
    pub rpm_mode: RpmMode,
}

impl LedSegment {
    /// The segment that a profile describes as `segment`, in a container with
    /// the RPM mode `mode`: its value is in the unit of the mode, and it has a
    /// blink colour only if the profile switches that on.
    pub open spec fn spec_new(mode: RpmMode, segment: LedSegmentHelper) -> LedSegment {
        LedSegment {
            start_value: StartValue::spec_new(mode, segment.start_value),
            normal_color: segment.normal_color,
            blinking_color: if segment.use_blinking_color {
                Some(segment.blinking_color)
            } else {
                None
            },
            led_count: segment.led_count,
        }
    }

    #[verifier::when_used_as_spec(spec_new)]
    pub fn new(mode: RpmMode, segment: LedSegmentHelper) -> (made: LedSegment)
        ensures
            made == Self::spec_new(mode, segment),
    {
        let start_value = match mode {
            RpmMode::Rpm => StartValue::Rpm(segment.start_value),
            RpmMode::RpmPercentage => StartValue::RpmPercentage(segment.start_value),
            RpmMode::RedlinePercentage => StartValue::RedlinePercentage(segment.start_value),
        };
        LedSegment {
            start_value,
            normal_color: segment.normal_color,
            blinking_color: if segment.use_blinking_color {
                Some(segment.blinking_color)
            } else {
                None
            },
            led_count: segment.led_count,
        }
    }
}

impl RpmSegmentsContainer {
    /// The container that a profile describes as `helper`: each of its
    /// segments takes the RPM mode of the container.
    pub fn from_helper(helper: RpmSegmentsContainerHelper) -> (container: RpmSegmentsContainer)
        ensures
            container.description == helper.description,
            container.is_enabled == helper.is_enabled,
            container.start_position == helper.start_position,
            container.blink_enabled == helper.blink_enabled,
            container.blink_delay == helper.blink_delay,
            container.blink_on_last_gear == helper.blink_on_last_gear,
            container.segments@.len() == helper.segments@.len(),
            forall|i: int|
                0 <= i < helper.segments@.len() ==> #[trigger] container.segments@[i]
                    == LedSegment::spec_new(helper.rpm_mode, helper.segments@[i]),
    {
        let mut segments: Vec<LedSegment> = Vec::new();
        let mut i: usize = 0;
        while i < helper.segments.len()
            invariant
                i <= helper.segments@.len(),
                segments@.len() == i,
                forall|j: int|
                    0 <= j < i ==> #[trigger] segments@[j] == LedSegment::spec_new(
                        helper.rpm_mode,
                        helper.segments@[j],
                    ),
            decreases helper.segments@.len() - i,
        {
            segments.push(LedSegment::new(helper.rpm_mode, helper.segments[i]));
            i += 1;
        }
        RpmSegmentsContainer {
            description: helper.description,
            is_enabled: helper.is_enabled,
            start_position: helper.start_position,
            blink_enabled: helper.blink_enabled,
            blink_delay: helper.blink_delay,
            blink_on_last_gear: helper.blink_on_last_gear,
            segments,
        }
    }
}

} // verus!
