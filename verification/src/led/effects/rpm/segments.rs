//! The RPM segments: runs of LEDs, each turned on as a whole once the RPM
//! reaches the value of the segment.

use vstd::prelude::*;

use crate::led::effects::groups::{EffectGroup, GroupCondition};
use crate::led::effects::{
    held_at_usize, shows, BlinkConfiguration, BlinkState, BlinkTimings, LedEffect, LedGroup,
};
use crate::led::profiles::rpm;
use crate::led::profiles::rpm::{RpmSegmentsContainer, StartValue};
use crate::moment::Moment;
use crate::positive::Positive;
use crate::time::{Duration, Instant};

verus! {

/// The effect of one segment.
#[derive(Debug, Clone, PartialEq, Eq)]
pub struct LedSegment {
    pub start_value: StartValue,
    pub enabled: bool,
    pub on_leds: LedGroup,
    pub off_leds: LedGroup,
    pub blink_leds: Option<LedGroup>,
    pub blink_configuration: BlinkConfiguration,
}

impl StartValue {
    /// Whether the RPM of `moment` has reached the value, or `None` where the
    /// snapshot lacks what the comparison needs: the RPM, and for a
    /// percentage the highest RPM too.
    pub open spec fn spec_reached(&self, moment: &Moment) -> Option<bool> {
        match moment.vehicle_engine_rotation_speed {
            None => None,
            Some(rpm) => match self {
                StartValue::Rpm(start) => Some(rpm.thousandths >= start.thousandths),
                StartValue::RpmPercentage(percent) => match moment.vehicle_max_engine_rotation_speed {
                    None => None,
                    Some(max_rpm) => Some(
                        Moment::spec_rpm_percentage_at_least(rpm, max_rpm, *percent),
                    ),
                },
                StartValue::RedlinePercentage(percent) => match moment.vehicle_max_engine_rotation_speed {
                    None => None,
                    Some(max_rpm) => Some(
                        Moment::spec_redline_percentage_at_least(rpm, max_rpm, *percent),
                    ),
                },
            },
        }
    }

    #[verifier::when_used_as_spec(spec_reached)]
    pub fn reached(&self, moment: &Moment) -> (reached: Option<bool>)
        ensures
            reached == self.spec_reached(moment),
    {
        let rpm = match moment.vehicle_engine_rotation_speed {
            Some(rpm) => rpm,
            None => {
                return None;
            },
        };
        match self {
            StartValue::Rpm(start) => Some(rpm.thousandths >= start.thousandths),
            StartValue::RpmPercentage(percent) => match moment.vehicle_max_engine_rotation_speed {
                None => None,
                Some(max_rpm) => Some(Moment::rpm_percentage_at_least(rpm, max_rpm, *percent)),
            },
            StartValue::RedlinePercentage(percent) => match moment.vehicle_max_engine_rotation_speed {
                None => None,
                Some(max_rpm) => Some(Moment::redline_percentage_at_least(rpm, max_rpm, *percent)),
            },
        }
    }
}

impl LedSegment {
    /// The pictures of the segment, all LEDs on, all LEDs off and, where
    /// there is one, all LEDs in the blink colour, are of the same LEDs.
    pub open spec fn wf(&self) -> bool {
        &&& self.on_leds.wf()
        &&& self.on_leds.leds@.len() >= 1
        &&& self.off_leds.start_position == self.on_leds.start_position
        &&& self.off_leds.leds@.len() == self.on_leds.leds@.len()
        &&& self.off_leds.all_off()
        &&& self.blink_leds matches Some(blink_leds) ==> {
            &&& blink_leds.start_position == self.on_leds.start_position
            &&& blink_leds.leds@.len() == self.on_leds.leds@.len()
        }
    }

    /// The segment after an update with `moment` at the instant `now`. A
    /// snapshot that does not tell whether the RPM has reached the value of
    /// the segment changes nothing. Else the segment is on if it has, and
    /// it blinks while the engine is at its redline.
    pub open spec fn spec_update_at(self, moment: &Moment, now: Instant) -> LedSegment {
        match self.start_value.spec_reached(moment) {
            None => self,
            Some(enabled) => LedSegment {
                enabled,
                blink_configuration: self.blink_configuration.spec_update_at(
                    moment.spec_redline_reached(),
                    now,
                ),
                ..self
            },
        }
    }

    /// The segment once it is disabled.
    pub open spec fn spec_disable(self) -> LedSegment {
        LedSegment {
            enabled: false,
            blink_configuration: self.blink_configuration.spec_disable(),
            ..self
        }
    }

    /// The LEDs as the last update left them. A segment that is not on is
    /// dark. One that is on shows its colour; while it blinks it is dark in
    /// the off phase, and in the on phase it shows its blink colour where it
    /// has one.
    pub open spec fn spec_leds(&self) -> LedGroup {
        if self.enabled {
            match self.blink_configuration.spec_state() {
                BlinkState::NotBlinking => self.on_leds,
                BlinkState::LedsTurnedOff { .. } => self.off_leds,
                BlinkState::LedsTurnedOn { .. } => match self.blink_leds {
                    Some(blink_leds) => blink_leds,
                    None => self.on_leds,
                },
            }
        } else {
            self.off_leds
        }
    }

    /// Update the segment with the latest snapshot of the simulator, given
    /// the reading `now` of the clock.
    pub fn update_at(&mut self, moment: &Moment, now: Instant)
        ensures
            *final(self) == old(self).spec_update_at(moment, now),
            old(self).wf() ==> final(self).wf(),
    {
        let enabled = match self.start_value.reached(moment) {
            Some(enabled) => enabled,
            None => {
                return ;
            },
        };
        let redline_reached = moment.redline_reached();
        self.enabled = enabled;
        self.blink_configuration.update_at(redline_reached, now);
    }

    /// Update the segment with the latest snapshot of the simulator, at the
    /// current reading of the wall clock.
    pub fn update(&mut self, moment: &Moment)
        ensures
            exists|now: Instant| *final(self) == #[trigger] old(self).spec_update_at(moment, now),
            old(self).wf() ==> final(self).wf(),
    {
        let now = Instant::now();
        self.update_at(moment, now);
    }

    /// Turn the LEDs off until the next update.
    pub fn disable(&mut self)
        ensures
            *final(self) == old(self).spec_disable(),
            old(self).wf() ==> final(self).wf(),
            final(self).spec_leds() == old(self).off_leds,
    {
        self.enabled = false;
        self.blink_configuration.disable();
    }

    /// The position of the first LED of the segment.
    pub fn start_led(&self) -> (position: Positive)
        ensures
            position == self.on_leds.start_position,
            position@ >= 1,
    {
        self.on_leds.start_position()
    }

    /// The description of the segment: a segment has none.
    pub fn description(&self) -> (description: &str)
        ensures
            description@ == Seq::<char>::empty(),
    {
        let description: &str = "";
        proof {
            reveal_strlit("");
        }
        description
    }

    /// The LEDs as the last update left them.
    pub fn leds(&self) -> (group: &LedGroup)
        ensures
            *group == self.spec_leds(),
    {
        if self.enabled {
            match self.blink_configuration.state() {
                BlinkState::NotBlinking => &self.on_leds,
                BlinkState::LedsTurnedOff { .. } => &self.off_leds,
                BlinkState::LedsTurnedOn { .. } => match &self.blink_leds {
                    Some(blink_leds) => blink_leds,
                    None => &self.on_leds,
                },
            }
        } else {
            &self.off_leds
        }
    }

    /// The number of LEDs of the segment.
    pub fn led_count(&self) -> (count: usize)
        ensures
            count == self.on_leds.leds@.len(),
    {
        self.on_leds.leds.len()
    }
}

/// The effect of an [`RpmSegmentsContainer`]: a group of its segments, laid
/// out from left to right and always shown.
#[derive(Debug, PartialEq, Eq)]
pub struct RpmSegmentsEffect {
    pub inner: EffectGroup,
}

/// Where the segment with the index `n` begins, in a container that begins
/// at `start`: behind the segments before it. Positions stop at the largest
/// `usize`.
pub open spec fn segment_start(start: nat, segments: Seq<rpm::LedSegment>, n: nat) -> nat
    decreases n,
{
    if n == 0 || n > segments.len() {
        start
    } else {
        held_at_usize(segment_start(start, segments, (n - 1) as nat) + segments[n - 1].led_count@)
    }
}

/// How the segments of a container blink: not at all, or with the delay of
/// the container for both phases.
pub open spec fn segments_blink_configuration(blink_enabled: bool, blink_delay: Duration) -> BlinkConfiguration {
    if blink_enabled {
        BlinkConfiguration::Enabled {
            state: BlinkState::NotBlinking,
            timings: BlinkTimings::Single { timeout: blink_delay },
        }
    } else {
        BlinkConfiguration::Disabled
    }
}

/// `effect` is the effect of a segment of `led_count` LEDs from `start` on,
/// as it is before its first update: it is off, and it has a picture in its
/// normal colour and, where the segment has a blink colour, one in that.
pub open spec fn spec_segment_of(
    segment: &rpm::LedSegment,
    blink_configuration: BlinkConfiguration,
    start: nat,
    effect: &LedEffect,
) -> bool {
    &&& effect matches LedEffect::Segment(made)
    &&& made.wf()
    &&& made.start_value == segment.start_value
    &&& !made.enabled
    &&& made.blink_configuration == blink_configuration
    &&& made.on_leds.start_position@ == start
    &&& made.on_leds.leds@.len() == segment.led_count@
    &&& made.on_leds.all_on(segment.normal_color)
    &&& match segment.blinking_color {
        Some(color) => made.blink_leds matches Some(blink_leds) && blink_leds.all_on(color),
        None => made.blink_leds is None,
    }
}

impl RpmSegmentsEffect {
    /// The group of the segments is well formed.
    pub open spec fn wf(&self) -> bool {
        self.inner.wf()
    }

    /// The effect of `container` with its first LED at `start_position`.
    pub fn with_start_position(container: RpmSegmentsContainer, start_position: Positive) -> (effect: Self)
        ensures
            effect.wf(),
            effect.inner.start_position == start_position,
            effect.inner.condition == GroupCondition::AlwaysOn,
            effect.inner.states@.len() == container.segments@.len(),
            forall|i: int|
                0 <= i < container.segments@.len() ==> spec_segment_of(
                    &container.segments@[i],
                    segments_blink_configuration(container.blink_enabled, container.blink_delay),
                    segment_start(start_position@, container.segments@, i as nat),
                    #[trigger] &effect.inner.states@[i],
                ),
    {
        let _ = start_position.get();
        let mut segments: Vec<LedEffect> = Vec::new();
        let mut segment_position = start_position;
        let count = container.segments.len();
        let mut i: usize = 0;
        while i < count
            invariant
                i <= count,
                count == container.segments@.len(),
                segments@.len() == i,
                start_position@ >= 1,
                segment_position@ == segment_start(start_position@, container.segments@, i as nat),
                forall|j: int| 0 <= j < i ==> (#[trigger] segments@[j]).wf(),
                forall|j: int|
                    0 <= j < i ==> spec_segment_of(
                        &container.segments@[j],
                        segments_blink_configuration(
                            container.blink_enabled,
                            container.blink_delay,
                        ),
                        segment_start(start_position@, container.segments@, j as nat),
                        #[trigger] &segments@[j],
                    ),
            decreases count - i,
        {
            let segment = container.segments[i];
            let led_count = segment.led_count;
            let blink_configuration = if container.blink_enabled {
                BlinkConfiguration::Enabled {
                    state: BlinkState::NotBlinking,
                    timings: BlinkTimings::Single { timeout: container.blink_delay },
                }
            } else {
                BlinkConfiguration::Disabled
            };
            let blink_leds = match segment.blinking_color {
                Some(color) => Some(LedGroup::with_color(color, segment_position, led_count)),
                None => None,
            };
            let made = LedSegment {
                start_value: segment.start_value,
                enabled: false,
                on_leds: LedGroup::with_color(segment.normal_color, segment_position, led_count),
                off_leds: LedGroup::new(segment_position, led_count),
                blink_leds,
                blink_configuration,
            };
            let _ = led_count.get();
            segment_position = segment_position.saturating_add(led_count.get());
            segments.push(LedEffect::Segment(made));
            i += 1;
        }
        Self {
            inner: EffectGroup {
                start_position,
                condition: GroupCondition::AlwaysOn,
                states: segments,
            },
        }
    }

    /// Update the segments with the latest snapshot of the simulator, given
    /// the reading `now` of the clock.
    pub fn update_at(&mut self, moment: &Moment, now: Instant)
        requires
            old(self).wf(),
        ensures
            final(self).wf(),
            old(self).inner.spec_updated_at(&final(self).inner, moment, now),
    {
        self.inner.update_at(moment, now)
    }

    /// Update the segments with the latest snapshot of the simulator, at the
    /// current reading of the wall clock.
    pub fn update(&mut self, moment: &Moment)
        requires
            old(self).wf(),
        ensures
            final(self).wf(),
            exists|now: Instant| #[trigger]
                old(self).inner.spec_updated_at(&final(self).inner, moment, now),
    {
        let now = Instant::now();
        self.update_at(moment, now);
    }

    /// Turn every segment off until the next update.
    pub fn disable(&mut self)
        requires
            old(self).wf(),
        ensures
            final(self).wf(),
            old(self).inner.spec_disabled(&final(self).inner),
    {
        self.inner.disable()
    }

    /// The position of the first LED of the first segment.
    pub fn start_led(&self) -> (position: Positive)
        ensures
            position == self.inner.start_position,
            position@ >= 1,
    {
        self.inner.start_led()
    }

    /// The description of the effect: the group of the segments has none.
    pub fn description(&self) -> (description: &str)
        ensures
            description@ == Seq::<char>::empty(),
    {
        self.inner.description()
    }

    /// The LED groups of the segments, in the order of the segments.
    pub fn leds(&self) -> (groups: Vec<&LedGroup>)
        ensures
            shows(groups@, self.inner.spec_leds()),
    {
        self.inner.leds()
    }

    /// The number of LEDs of all the segments, held at the largest `usize`.
    pub fn led_count(&self) -> (count: usize)
        ensures
            count == held_at_usize(self.inner.spec_led_count()),
    {
        self.inner.led_count()
    }
}

} // verus!
