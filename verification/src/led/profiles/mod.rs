//! The lighting profile: which regions of an LED strip light up, and when.
//!
//! A profile is a document of containers. Each container configures a set of
//! LEDs and names, in a type discriminator, the condition it reacts to: the
//! RPM of the engine, a flag waved on the track, and so on. Containers of an
//! unknown type are kept as they are and light nothing.

use vstd::prelude::*;

use crate::color::Color;
use crate::fixed::Fixed;
use crate::positive::Positive;
use crate::text::{chars_of, tail_equals};
use crate::time::Duration;

pub mod flag;
pub mod groups;
pub mod helpers;
pub mod redline;
pub mod rpm;
pub mod speed_limiter;

pub use self::helpers::{color_from_str, default_non_zero, default_true, duration_from_int_ms};
use self::groups::{
    ConditionalGroupContainer, SimpleGroupContainer, StackingType, TimeLimitedGroupContainer,
};
use self::rpm::{RpmContainer, RpmSegmentsContainer};
use self::speed_limiter::SpeedLimiterAnimationContainer;

verus! {

/// Why a profile was refused.
#[derive(Debug, Clone, Copy, PartialEq, Eq)]
pub enum InvalidReason {
    /// The text of a colour is neither a CSS colour nor three numbers.
    MalformedColor,
    /// A component of a colour is a number above 255.
    ColorComponentOutOfRange,
    /// The number of an RPM mode is none of the known ones.
    UnknownRpmMode,
}

/// The error of a profile that cannot be loaded.
#[derive(Debug, Clone, PartialEq, Eq)]
pub struct InvalidProfile {
    /// The name of the offending field.
    pub field: String,
    /// What is wrong with the field.
    pub reason: InvalidReason,
}

/// The configuration of a container that lights its LEDs in one colour, and
/// may blink, while a condition holds.
#[derive(Debug, Clone, PartialEq, Eq)]
pub struct SimpleBlinkContainer {
    pub description: String,
    pub is_enabled: bool,
    pub led_count: Positive,
    pub start_position: Positive,
    pub color: Color,
    pub blink_enabled: bool,
    pub blink_delay: Duration,
    pub dual_blink_timing_enabled: bool,
    pub off_delay: Duration,
    pub on_delay: Duration,
}

/// The [`LedProfile`] struct contains configurations for controlling RGB LED lights.
///
/// This struct collects configurations and definitions how LED lights on a
/// steering wheel or data display unit should behave depending on the inputs
/// of a simracing game.
#[derive(Debug, PartialEq, Eq)]
pub struct LedProfile {
    /// The name of the profile.
    pub name: String,
    /// The unique ID of the profile, a UUID as a number.
    pub profile_id: u128,
    /// The brightness of all the LEDs this profile configures.
    pub global_brightness: Fixed,
    /// Should the [`LedProfile::global_brightness`] property of the profile be
    /// used to configure the brightness of all the LEDs?
    pub use_profile_brightness: bool,
    pub automatic_switch: bool,
    pub embedded_javascript: Option<String>,
    pub game_code: Option<String>,
    /// A list of [`LedContainer`] values which configure a set of LEDs.
    pub led_containers: Vec<LedContainer>,
}

/// The [`LedContainer`] contains a single configuration for the behavior of a
/// set of LED lights.
///
/// There are different container types, each of them might react to different
/// inputs, i.e. there are containers that react to the RPM of the engine, to
/// flags being waved on the track, and other various track and car conditions
/// being met.
#[derive(Debug, PartialEq, Eq)]
pub enum LedContainer {
    Rpm(RpmContainer),
    RpmSegments(RpmSegmentsContainer),
    RedlineReached(SimpleBlinkContainer),
    SpeedLimiterAnimation(SpeedLimiterAnimationContainer),
    Group(GroupContainer),
    BlueFlag(SimpleBlinkContainer),
    WhiteFlag(SimpleBlinkContainer),
    YellowFlag(SimpleBlinkContainer),
    Unknown { start_position: Positive, container_type: String, content: String },
}

/// A container of containers, shown while its own condition holds.
#[derive(Debug, PartialEq, Eq)]
pub enum GroupContainer {
    Simple(SimpleGroupContainer),
    GameRunning(SimpleGroupContainer),
    CarStarted(TimeLimitedGroupContainer),
    Conditional(ConditionalGroupContainer),
}

/// What the type discriminator of a container says that the container is.
#[derive(Debug, Clone, Copy, PartialEq, Eq)]
pub enum ContainerType {
    Rpm,
    RpmSegments,
    RedlineReached,
    SpeedLimiterAnimation,
    YellowFlag,
    BlueFlag,
    WhiteFlag,
    Group,
    GameRunningGroup,
    CarStartedGroup,
    ConditionalGroup,
    Unknown,
}

/// Where the last segment of a dot separated text begins: behind the last
/// dot among the first `n` characters, or at the start where there is none.
pub open spec fn last_segment_start(text: Seq<char>, n: nat) -> nat
    decreases n,
{
    if n == 0 || n > text.len() {
        0
    } else if text[n - 1] == '.' {
        n
    } else {
        last_segment_start(text, (n - 1) as nat)
    }
}

/// The last segment of a dot separated text: the whole text where it has no
/// dot.
pub open spec fn last_segment(text: Seq<char>) -> Seq<char> {
    text.subrange(last_segment_start(text, text.len()) as int, text.len() as int)
}

/// Where the last segment of the dot separated text `chars` begins.
fn segment_start(chars: &Vec<char>) -> (start: usize)
    ensures
        start == last_segment_start(chars@, chars@.len()),
        start <= chars@.len(),
{
    let mut start: usize = 0;
    let mut i: usize = 0;
    while i < chars.len()
        invariant
            i <= chars@.len(),
            start == last_segment_start(chars@, i as nat),
            start <= i,
        decreases chars@.len() - i,
    {
        if chars[i] == '.' {
            start = i + 1;
        }
        i += 1;
    }
    start
}

/// The last segment of a dot separated text: the name of the type of a
/// container, without the names of the modules that it may be given with.
pub fn last_segment_of(text: &str) -> (name: &str)
    ensures
        name@ == last_segment(text@),
{
    let chars = chars_of(text);
    let start = segment_start(&chars);
    text.substring_char(start, chars.len())
}

impl ContainerType {
    /// The container type that a discriminator names. Only the last of its dot
    /// separated segments counts; a name that is not known is `Unknown`.
    pub open spec fn spec_from_discriminator(text: Seq<char>) -> ContainerType {
        let name = last_segment(text);
        if name == "RPMContainer"@ {
            ContainerType::Rpm
        } else if name == "RPMSegmentsContainer"@ {
            ContainerType::RpmSegments
        } else if name == "RedlineReachedContainer"@ {
            ContainerType::RedlineReached
        } else if name == "SpeedLimiterAnimationContainer"@ {
            ContainerType::SpeedLimiterAnimation
        } else if name == "YellowFlagContainer"@ {
            ContainerType::YellowFlag
        } else if name == "BlueFlagContainer"@ {
            ContainerType::BlueFlag
        } else if name == "WhiteFlagContainer"@ {
            ContainerType::WhiteFlag
        } else if name == "GroupContainer"@ {
            ContainerType::Group
        } else if name == "GameRunningGroupContainer"@ {
            ContainerType::GameRunningGroup
        } else if name == "GameCarStatedGroupContainer"@ {
            ContainerType::CarStartedGroup
        } else if name == "CustomConditionalGroupContainer"@ {
            ContainerType::ConditionalGroup
        } else {
            ContainerType::Unknown
        }
    }

    /// Reads the type discriminator of a container.
    pub fn from_discriminator(text: &str) -> (container_type: ContainerType)
        ensures
            container_type == Self::spec_from_discriminator(text@),
    {
        let chars = chars_of(text);
        let start = segment_start(&chars);
        if tail_equals(&chars, start, "RPMContainer") {
            ContainerType::Rpm
        } else if tail_equals(&chars, start, "RPMSegmentsContainer") {
            ContainerType::RpmSegments
        } else if tail_equals(&chars, start, "RedlineReachedContainer") {
            ContainerType::RedlineReached
        } else if tail_equals(&chars, start, "SpeedLimiterAnimationContainer") {
            ContainerType::SpeedLimiterAnimation
        } else if tail_equals(&chars, start, "YellowFlagContainer") {
            ContainerType::YellowFlag
        } else if tail_equals(&chars, start, "BlueFlagContainer") {
            ContainerType::BlueFlag
        } else if tail_equals(&chars, start, "WhiteFlagContainer") {
            ContainerType::WhiteFlag
        } else if tail_equals(&chars, start, "GroupContainer") {
            ContainerType::Group
        } else if tail_equals(&chars, start, "GameRunningGroupContainer") {
            ContainerType::GameRunningGroup
        } else if tail_equals(&chars, start, "GameCarStatedGroupContainer") {
            ContainerType::CarStartedGroup
        } else if tail_equals(&chars, start, "CustomConditionalGroupContainer") {
            ContainerType::ConditionalGroup
        } else {
            ContainerType::Unknown
        }
    }
}

impl GroupContainer {
    /// The containers of the group.
    pub open spec fn spec_led_containers(&self) -> Seq<LedContainer> {
        match self {
            GroupContainer::Simple(c) => c.led_containers@,
            GroupContainer::GameRunning(c) => c.led_containers@,
            GroupContainer::CarStarted(c) => c.led_containers@,
            GroupContainer::Conditional(c) => c.led_containers@,
        }
    }

    /// How the group lays its containers out.
    pub open spec fn spec_stacking_type(&self) -> StackingType {
        match self {
            GroupContainer::Simple(c) => c.stacking_type,
            GroupContainer::GameRunning(c) => c.stacking_type,
            GroupContainer::CarStarted(c) => c.stacking_type,
            GroupContainer::Conditional(c) => c.stacking_type,
        }
    }

    pub open spec fn spec_start_position(&self) -> Positive {
        match self {
            GroupContainer::Simple(c) => c.start_position,
            GroupContainer::GameRunning(c) => c.start_position,
            GroupContainer::CarStarted(c) => c.start_position,
            GroupContainer::Conditional(c) => c.start_position,
        }
    }

    pub open spec fn spec_enabled(&self) -> bool {
        match self {
            GroupContainer::Simple(c) => c.is_enabled,
            GroupContainer::GameRunning(c) => c.is_enabled,
            GroupContainer::CarStarted(c) => c.is_enabled,
            GroupContainer::Conditional(c) => c.is_enabled,
        }
    }

    /// The position of the first LED of the group, relative to what holds it.
    #[verifier::when_used_as_spec(spec_start_position)]
    pub fn start_position(&self) -> (position: Positive)
        ensures
            position == self.spec_start_position(),
            position@ >= 1,
    {
        let position = match self {
            GroupContainer::Simple(c) => c.start_position,
            GroupContainer::GameRunning(c) => c.start_position,
            GroupContainer::CarStarted(c) => c.start_position,
            GroupContainer::Conditional(c) => c.start_position,
        };
        let _ = position.get();
        position
    }

    /// Whether the profile has the group switched on.
    #[verifier::when_used_as_spec(spec_enabled)]
    pub fn enabled(&self) -> (enabled: bool)
        ensures
            enabled == self.spec_enabled(),
    {
        match self {
            GroupContainer::Simple(c) => c.is_enabled,
            GroupContainer::GameRunning(c) => c.is_enabled,
            GroupContainer::CarStarted(c) => c.is_enabled,
            GroupContainer::Conditional(c) => c.is_enabled,
        }
    }
}

impl LedContainer {
    pub open spec fn spec_start_position(&self) -> Positive {
        match self {
            LedContainer::Rpm(c) => c.start_position,
            LedContainer::RpmSegments(c) => c.start_position,
            LedContainer::RedlineReached(c) => c.start_position,
            LedContainer::SpeedLimiterAnimation(c) => c.start_position,
            LedContainer::Group(c) => c.spec_start_position(),
            LedContainer::BlueFlag(c) => c.start_position,
            LedContainer::WhiteFlag(c) => c.start_position,
            LedContainer::YellowFlag(c) => c.start_position,
            LedContainer::Unknown { start_position, .. } => *start_position,
        }
    }

    pub open spec fn spec_enabled(&self) -> bool {
        match self {
            LedContainer::Rpm(c) => c.is_enabled,
            LedContainer::RpmSegments(c) => c.is_enabled,
            LedContainer::RedlineReached(c) => c.is_enabled,
            LedContainer::SpeedLimiterAnimation(c) => c.is_enabled,
            LedContainer::Group(c) => c.spec_enabled(),
            LedContainer::BlueFlag(c) => c.is_enabled,
            LedContainer::WhiteFlag(c) => c.is_enabled,
            LedContainer::YellowFlag(c) => c.is_enabled,
            LedContainer::Unknown { .. } => true,
        }
    }

    /// The position of the first LED of the container, counted from one and
    /// relative to what holds the container.
    #[verifier::when_used_as_spec(spec_start_position)]
    pub fn start_position(&self) -> (position: Positive)
        ensures
            position == self.spec_start_position(),
            position@ >= 1,
    {
        let position = match self {
            LedContainer::Rpm(c) => c.start_position,
            LedContainer::RpmSegments(c) => c.start_position,
            LedContainer::RedlineReached(c) => c.start_position,
            LedContainer::SpeedLimiterAnimation(c) => c.start_position,
            LedContainer::Group(c) => c.start_position(),
            LedContainer::BlueFlag(c) => c.start_position,
            LedContainer::WhiteFlag(c) => c.start_position,
            LedContainer::YellowFlag(c) => c.start_position,
            LedContainer::Unknown { start_position, .. } => *start_position,
        };
        let _ = position.get();
        position
    }

    /// Whether the profile has the container switched on. A container of an
    /// unknown type has no such switch and counts as switched on.
    #[verifier::when_used_as_spec(spec_enabled)]
    pub fn enabled(&self) -> (enabled: bool)
        ensures
            enabled == self.spec_enabled(),
    {
        match self {
            LedContainer::Rpm(c) => c.is_enabled,
            LedContainer::RpmSegments(c) => c.is_enabled,
            LedContainer::RedlineReached(c) => c.is_enabled,
            LedContainer::SpeedLimiterAnimation(c) => c.is_enabled,
            LedContainer::Group(c) => c.enabled(),
            LedContainer::BlueFlag(c) => c.is_enabled,
            LedContainer::WhiteFlag(c) => c.is_enabled,
            LedContainer::YellowFlag(c) => c.is_enabled,
            LedContainer::Unknown { .. } => true,
        }
    }
}

} // verus!
