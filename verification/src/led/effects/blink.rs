//! Effects that light their LEDs in one colour, and may blink, while a flag
//! is waved or the engine is at its redline.

use vstd::prelude::*;

use super::{BlinkConfiguration, BlinkState, BlinkTimings, LedGroup};
use crate::led::profiles::flag::FlagContainer;
use crate::led::profiles::redline::RedlineReachedContainer;
use crate::led::profiles::SimpleBlinkContainer;
use crate::moment::Moment;
use crate::positive::Positive;
use crate::time::Instant;

verus! {

/// The flags that an effect can react to.
#[derive(Debug, Clone, Copy, PartialEq, Eq)]
pub enum FlagColor {
    White,
    Yellow,
    Blue,
}

/// What a blink effect reacts to.
#[derive(Debug, Clone, Copy, PartialEq, Eq)]
pub enum EffectCondition {
    Flag { color: FlagColor },
    RedLine,
}

/// An effect that shows all its LEDs in one colour while its condition
/// holds, steadily or blinking.
#[derive(Debug, Clone, PartialEq, Eq)]
pub struct BlinkEffect {
    pub condition: EffectCondition,
    pub container: SimpleBlinkContainer,
    pub on_leds: LedGroup,
    pub off_leds: LedGroup,
    pub enabled: bool,
    pub blink_configuration: BlinkConfiguration,
}

impl EffectCondition {
    /// Whether the condition holds in `moment`, or `None` where the snapshot
    /// has no flags and so does not tell.
    pub open spec fn spec_holds(&self, moment: &Moment) -> Option<bool> {
        match moment.flags {
            None => None,
            Some(flags) => Some(
                match self {
                    EffectCondition::Flag { color } => match color {
                        FlagColor::White => flags.white,
                        FlagColor::Yellow => flags.yellow,
                        FlagColor::Blue => flags.blue,
                    },
                    EffectCondition::RedLine => moment.spec_redline_reached(),
                },
            ),
        }
    }

    #[verifier::when_used_as_spec(spec_holds)]
    pub fn holds(&self, moment: &Moment) -> (holds: Option<bool>)
        ensures
            holds == self.spec_holds(moment),
    {
        match moment.flags {
            None => None,
            Some(flags) => Some(
                match self {
                    EffectCondition::Flag { color } => match color {
                        FlagColor::White => flags.white,
                        FlagColor::Yellow => flags.yellow,
                        FlagColor::Blue => flags.blue,
                    },
                    EffectCondition::RedLine => moment.redline_reached(),
                },
            ),
        }
    }
}

impl BlinkEffect {
    /// The two pictures of the effect, all LEDs on and all LEDs off, are of
    /// the same LEDs, and these are as many as the container asks for.
    pub open spec fn wf(&self) -> bool {
        &&& self.on_leds.wf()
        &&& self.off_leds.start_position == self.on_leds.start_position
        &&& self.container.led_count@ >= 1
        &&& self.on_leds.leds@.len() == self.container.led_count@
        &&& self.off_leds.leds@.len() == self.container.led_count@
        &&& self.on_leds.all_on(self.container.color)
        &&& self.off_leds.all_off()
    }

    /// How a container asks its LEDs to blink: not at all, with one delay for
    /// both phases, or with a delay for each.
    pub open spec fn spec_blink_configuration(container: &SimpleBlinkContainer) -> BlinkConfiguration {
        if container.blink_enabled {
            BlinkConfiguration::Enabled {
                state: BlinkState::NotBlinking,
                timings: if container.dual_blink_timing_enabled {
                    BlinkTimings::Double {
                        on_timeout: container.on_delay,
                        off_timeout: container.off_delay,
                    }
                } else {
                    BlinkTimings::Single { timeout: container.blink_delay }
                },
            }
        } else {
            BlinkConfiguration::Disabled
        }
    }

    /// The effect after an update with `moment` at the instant `now`. A
    /// snapshot that does not tell whether the condition holds changes
    /// nothing.
    pub open spec fn spec_update_at(self, moment: &Moment, now: Instant) -> BlinkEffect {
        match self.condition.spec_holds(moment) {
            None => self,
            Some(is_enabled) => BlinkEffect {
                enabled: is_enabled,
                blink_configuration: self.blink_configuration.spec_update_at(is_enabled, now),
                ..self
            },
        }
    }

    /// The effect once it is disabled.
    pub open spec fn spec_disable(self) -> BlinkEffect {
        BlinkEffect {
            enabled: false,
            blink_configuration: self.blink_configuration.spec_disable(),
            ..self
        }
    }

    /// Whether the LEDs are on: while blinking the phase decides, otherwise
    /// the condition does.
    pub open spec fn spec_leds_enabled(&self) -> bool {
        self.blink_configuration.spec_state().spec_leds_enabled(self.enabled)
    }

    /// The LEDs as the last update left them: all on or all off.
    pub open spec fn spec_leds(&self) -> LedGroup {
        if self.spec_leds_enabled() {
            self.on_leds
        } else {
            self.off_leds
        }
    }

    /// The cycle of an effect under updates that tell whether its condition
    /// holds.
    ///
    /// While the condition does not hold the LEDs are off. When it comes to
    /// hold they turn on with that update. An effect that does not blink
    /// keeps them on. One that blinks turns them off with the first update at
    /// which the on timeout has passed, and on again with the first update
    /// at which the off timeout has passed since.
    pub proof fn lemma_update_cycle(self, moment: &Moment, now: Instant)
        requires
            self.condition.spec_holds(moment) is Some,
        ensures
            self.condition.spec_holds(moment) == Some(false) ==> !self.spec_update_at(
                moment,
                now,
            ).spec_leds_enabled(),
            self.condition.spec_holds(moment) == Some(true) ==> self.spec_update_at(
                moment,
                now,
            ).spec_leds_enabled() == (match self.blink_configuration {
                BlinkConfiguration::Disabled => true,
                BlinkConfiguration::Enabled { state, timings } => match state {
                    BlinkState::NotBlinking => true,
                    BlinkState::LedsTurnedOn { state_change } => !state_change.spec_expired_at(
                        now,
                        timings.spec_on_timeout(),
                    ),
                    BlinkState::LedsTurnedOff { state_change } => state_change.spec_expired_at(
                        now,
                        timings.spec_off_timeout(),
                    ),
                },
            }),
    {
    }

    /// The effect for a flag of the given colour, with its first LED at
    /// `start_position`.
    pub fn flag(flag_color: FlagColor, container: FlagContainer, start_position: Positive) -> (effect: Self)
        ensures
            effect.wf(),
            effect.condition == (EffectCondition::Flag { color: flag_color }),
            effect.container == container,
            effect.on_leds.start_position == start_position,
            !effect.enabled,
            effect.blink_configuration == Self::spec_blink_configuration(&container),
    {
        Self::new_helper(EffectCondition::Flag { color: flag_color }, container, start_position)
    }

    /// The effect for the redline, with its first LED at `start_position`.
    pub fn redline(container: RedlineReachedContainer, start_position: Positive) -> (effect: Self)
        ensures
            effect.wf(),
            effect.condition == EffectCondition::RedLine,
            effect.container == container,
            effect.on_leds.start_position == start_position,
            !effect.enabled,
            effect.blink_configuration == Self::spec_blink_configuration(&container),
    {
        Self::new_helper(EffectCondition::RedLine, container, start_position)
    }

    fn new_helper(
        condition: EffectCondition,
        container: SimpleBlinkContainer,
        start_position: Positive,
    ) -> (effect: Self)
        ensures
            effect.wf(),
            effect.condition == condition,
            effect.container == container,
            effect.on_leds.start_position == start_position,
            !effect.enabled,
            effect.blink_configuration == Self::spec_blink_configuration(&container),
    {
        let led_count = container.led_count;
        let _ = led_count.get();
        let blink_configuration = if container.blink_enabled {
            let timings = if container.dual_blink_timing_enabled {
                BlinkTimings::Double {
                    on_timeout: container.on_delay,
                    off_timeout: container.off_delay,
                }
            } else {
                BlinkTimings::Single { timeout: container.blink_delay }
            };
            BlinkConfiguration::Enabled { state: BlinkState::NotBlinking, timings }
        } else {
            BlinkConfiguration::Disabled
        };
        Self {
            condition,
            enabled: false,
            on_leds: LedGroup::with_color(container.color, start_position, led_count),
            off_leds: LedGroup::new(start_position, led_count),
            container,
            blink_configuration,
        }
    }

    /// The effect for a flag of the given colour at the position that the
    /// container gives.
    pub fn new(flag_color: FlagColor, container: FlagContainer) -> (effect: Self)
        ensures
            effect.wf(),
            effect.condition == (EffectCondition::Flag { color: flag_color }),
            effect.container == container,
            effect.on_leds.start_position == container.start_position,
            !effect.enabled,
            effect.blink_configuration == Self::spec_blink_configuration(&container),
    {
        let start_position = container.start_position;
        Self::flag(flag_color, container, start_position)
    }

    /// Update the effect with the latest snapshot of the simulator, given
    /// the reading `now` of the clock.
    pub fn update_at(&mut self, moment: &Moment, now: Instant)
        ensures
            *final(self) == old(self).spec_update_at(moment, now),
            old(self).wf() ==> final(self).wf(),
    {
        let is_enabled = match self.condition.holds(moment) {
            Some(is_enabled) => is_enabled,
            None => {
                return ;
            },
        };
        self.enabled = is_enabled;
        self.blink_configuration.update_at(is_enabled, now);
    }

    /// Update the effect with the latest snapshot of the simulator, at the
    /// current reading of the wall clock.
    pub fn update(&mut self, moment: &Moment)
        ensures
            exists|now: Instant| *final(self) == #[trigger] old(self).spec_update_at(moment, now),
            old(self).wf() ==> final(self).wf(),
    {
        let now = Instant::now();
        self.update_at(moment, now);
    }

    /// Turn the LEDs off until the next update.
    pub fn disable(&mut self)
        ensures
            *final(self) == old(self).spec_disable(),
            old(self).wf() ==> final(self).wf(),
            !final(self).spec_leds_enabled(),
            final(self).spec_leds() == old(self).off_leds,
    {
        self.enabled = false;
        self.blink_configuration.disable();
    }

    /// The position of the first LED of the effect.
    pub fn start_led(&self) -> (position: Positive)
        ensures
            position == self.on_leds.start_position,
            position@ >= 1,
    {
        self.on_leds.start_position()
    }

    /// The description that the profile gives of the effect.
    pub fn description(&self) -> (description: &str)
        ensures
            description@ == self.container.description@,
    {
        self.container.description.as_str()
    }

    /// The LEDs as the last update left them.
    pub fn leds(&self) -> (group: &LedGroup)
        ensures
            *group == self.spec_leds(),
    {
        if self.blink_configuration.state().leds_enabled(self.enabled) {
            &self.on_leds
        } else {
            &self.off_leds
        }
    }

    /// The number of LEDs of the effect.
    pub fn led_count(&self) -> (count: usize)
        ensures
            count == self.on_leds.leds@.len(),
    {
        self.on_leds.leds.len()
    }
}

} // verus!
