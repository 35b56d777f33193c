//! The effects that decide, for each telemetry snapshot, which LEDs are on.

use vstd::prelude::*;

use crate::color::Color;
use crate::moment::Moment;
use crate::positive::Positive;
use crate::time::{Duration, Instant};

pub mod blink;
pub mod groups;
pub mod rpm;

use self::blink::BlinkEffect;
use self::groups::EffectGroup;
use self::rpm::gradient::RpmGradientEffect;
use self::rpm::segments::{LedSegment, RpmSegmentsEffect};

verus! {

/// Common state for LED effects which support blinking LEDs.
#[derive(Debug, Clone, Copy, PartialEq, Eq)]
pub enum BlinkState {
    /// The LEDs are not blinking currently.
    NotBlinking,
    /// The LEDs are currently blinking and are in the off state.
    LedsTurnedOff {
        /// The instant in time when the LEDs turned off.
        state_change: Instant,
    },
    /// The LEDs are currently blinking and are in the on state.
    LedsTurnedOn {
        /// The instant in time when the LEDs turned on.
        state_change: Instant,
    },
}

/// How long the LEDs stay on and off while they blink.
#[derive(Debug, Clone, Copy, PartialEq, Eq)]
pub enum BlinkTimings {
    /// The LEDs stay on as long as they stay off.
    Single { timeout: Duration },
    /// The LEDs stay on and off for different spans.
    Double { on_timeout: Duration, off_timeout: Duration },
}

/// Whether an effect blinks, and if so, where in the blink cycle it is.
#[derive(Debug, Clone, Copy, PartialEq, Eq)]
pub enum BlinkConfiguration {
    Disabled,
    Enabled { state: BlinkState, timings: BlinkTimings },
}

impl Default for BlinkState {
    fn default() -> (state: Self)
        ensures
            state == BlinkState::NotBlinking,
    {
        BlinkState::NotBlinking
    }
}

impl Default for BlinkConfiguration {
    fn default() -> (configuration: Self)
        ensures
            configuration == BlinkConfiguration::Disabled,
    {
        BlinkConfiguration::Disabled
    }
}

impl BlinkTimings {
    pub open spec fn spec_on_timeout(&self) -> Duration {
        match self {
            BlinkTimings::Single { timeout } => *timeout,
            BlinkTimings::Double { on_timeout, .. } => *on_timeout,
        }
    }

    pub open spec fn spec_off_timeout(&self) -> Duration {
        match self {
            BlinkTimings::Single { timeout } => *timeout,
            BlinkTimings::Double { off_timeout, .. } => *off_timeout,
        }
    }

    /// How long the LEDs stay on before they turn off.
    #[verifier::when_used_as_spec(spec_on_timeout)]
    pub fn on_timeout(&self) -> (timeout: Duration)
        ensures
            timeout == self.spec_on_timeout(),
    {
        match self {
            BlinkTimings::Single { timeout } => *timeout,
            BlinkTimings::Double { on_timeout, .. } => *on_timeout,
        }
    }

    /// How long the LEDs stay off before they turn on again.
    #[verifier::when_used_as_spec(spec_off_timeout)]
    pub fn off_timeout(&self) -> (timeout: Duration)
        ensures
            timeout == self.spec_off_timeout(),
    {
        match self {
            BlinkTimings::Single { timeout } => *timeout,
            BlinkTimings::Double { off_timeout, .. } => *off_timeout,
        }
    }
}

impl BlinkState {
    /// The state after one update at the instant `now`.
    ///
    /// Without the signal the blinking stops at once. With it, blinking starts
    /// in the on phase, and a phase ends at the first update that finds its
    /// timeout elapsed.
    pub open spec fn spec_next(self, should_blink: bool, timings: BlinkTimings, now: Instant) -> BlinkState {
        if !should_blink {
            BlinkState::NotBlinking
        } else {
            match self {
                BlinkState::NotBlinking => BlinkState::LedsTurnedOn { state_change: now },
                BlinkState::LedsTurnedOff { state_change } => {
                    if state_change.spec_expired_at(now, timings.spec_off_timeout()) {
                        BlinkState::LedsTurnedOn { state_change: now }
                    } else {
                        self
                    }
                },
                BlinkState::LedsTurnedOn { state_change } => {
                    if state_change.spec_expired_at(now, timings.spec_on_timeout()) {
                        BlinkState::LedsTurnedOff { state_change: now }
                    } else {
                        self
                    }
                },
            }
        }
    }

    /// Whether the LEDs of an effect show, given whether its condition holds:
    /// while blinking the phase decides, otherwise the condition does.
    pub open spec fn spec_leds_enabled(self, active: bool) -> bool {
        match self {
            BlinkState::NotBlinking => active,
            BlinkState::LedsTurnedOff { .. } => false,
            BlinkState::LedsTurnedOn { .. } => true,
        }
    }

    #[verifier::when_used_as_spec(spec_next)]
    pub fn next(self, should_blink: bool, timings: BlinkTimings, now: Instant) -> (state: BlinkState)
        ensures
            state == self.spec_next(should_blink, timings, now),
    {
        if !should_blink {
            return BlinkState::NotBlinking;
        }
        match self {
            BlinkState::NotBlinking => BlinkState::LedsTurnedOn { state_change: now },
            BlinkState::LedsTurnedOff { state_change } => {
                if state_change.expired_at(now, timings.off_timeout()) {
                    BlinkState::LedsTurnedOn { state_change: now }
                } else {
                    self
                }
            },
            BlinkState::LedsTurnedOn { state_change } => {
                if state_change.expired_at(now, timings.on_timeout()) {
                    BlinkState::LedsTurnedOff { state_change: now }
                } else {
                    self
                }
            },
        }
    }

    #[verifier::when_used_as_spec(spec_leds_enabled)]
    pub fn leds_enabled(self, active: bool) -> (enabled: bool)
        ensures
            enabled == self.spec_leds_enabled(active),
    {
        match self {
            BlinkState::NotBlinking => active,
            BlinkState::LedsTurnedOff { .. } => false,
            BlinkState::LedsTurnedOn { .. } => true,
        }
    }
}

/// The cycle of blinking LEDs.
///
/// Once the signal is there the LEDs turn on with the next update. They turn
/// off with the first update at which the on timeout has passed, and on again
/// with the first update at which the off timeout has passed since. Without
/// the signal they stop blinking at once, whatever the phase.
pub proof fn lemma_blink_cycle(
    state: BlinkState,
    timings: BlinkTimings,
    state_change: Instant,
    now: Instant,
)
    ensures
        BlinkState::NotBlinking.spec_next(true, timings, now) == (BlinkState::LedsTurnedOn {
            state_change: now,
        }),
        (BlinkState::LedsTurnedOn { state_change }).spec_next(true, timings, now)
            == (if state_change.spec_expired_at(now, timings.spec_on_timeout()) {
            BlinkState::LedsTurnedOff { state_change: now }
        } else {
            BlinkState::LedsTurnedOn { state_change }
        }),
        (BlinkState::LedsTurnedOff { state_change }).spec_next(true, timings, now)
            == (if state_change.spec_expired_at(now, timings.spec_off_timeout()) {
            BlinkState::LedsTurnedOn { state_change: now }
        } else {
            BlinkState::LedsTurnedOff { state_change }
        }),
        state.spec_next(false, timings, now) == BlinkState::NotBlinking,
        !state.spec_next(false, timings, now).spec_leds_enabled(false),
        state.spec_next(true, timings, now).spec_leds_enabled(true) == !(state.spec_next(
            true,
            timings,
            now,
        ) is LedsTurnedOff),
{
}

impl BlinkConfiguration {
    /// The configuration after one update at the instant `now`: a disabled
    /// one never changes, an enabled one moves its state on.
    pub open spec fn spec_update_at(self, should_blink: bool, now: Instant) -> BlinkConfiguration {
        match self {
            BlinkConfiguration::Disabled => BlinkConfiguration::Disabled,
            BlinkConfiguration::Enabled { state, timings } => BlinkConfiguration::Enabled {
                state: state.spec_next(should_blink, timings, now),
                timings,
            },
        }
    }

    /// The configuration with the blinking stopped.
    pub open spec fn spec_disable(self) -> BlinkConfiguration {
        match self {
            BlinkConfiguration::Disabled => BlinkConfiguration::Disabled,
            BlinkConfiguration::Enabled { state, timings } => BlinkConfiguration::Enabled {
                state: BlinkState::NotBlinking,
                timings,
            },
        }
    }

    /// The blink state, which for a disabled configuration is `NotBlinking`.
    pub open spec fn spec_state(self) -> BlinkState {
        match self {
            BlinkConfiguration::Disabled => BlinkState::NotBlinking,
            BlinkConfiguration::Enabled { state, .. } => state,
        }
    }

    #[verifier::when_used_as_spec(spec_state)]
    pub fn state(self) -> (state: BlinkState)
        ensures
            state == self.spec_state(),
    {
        match self {
            BlinkConfiguration::Disabled => BlinkState::NotBlinking,
            BlinkConfiguration::Enabled { state, .. } => state,
        }
    }

    /// Stops the blinking.
    pub fn disable(&mut self)
        ensures
            *final(self) == old(self).spec_disable(),
    {
        let disabled = match *self {
            BlinkConfiguration::Disabled => BlinkConfiguration::Disabled,
            BlinkConfiguration::Enabled { timings, .. } => BlinkConfiguration::Enabled {
                state: BlinkState::NotBlinking,
                timings,
            },
        };
        *self = disabled;
    }

    /// Moves the blink cycle on, given the reading `now` of the clock.
    pub fn update_at(&mut self, should_blink: bool, now: Instant)
        ensures
            *final(self) == old(self).spec_update_at(should_blink, now),
    {
        let updated = match *self {
            BlinkConfiguration::Disabled => BlinkConfiguration::Disabled,
            BlinkConfiguration::Enabled { state, timings } => BlinkConfiguration::Enabled {
                state: state.next(should_blink, timings, now),
                timings,
            },
        };
        *self = updated;
    }

    /// Moves the blink cycle on at the current reading of the wall clock.
    pub fn update(&mut self, should_blink: bool)
        ensures
            exists|now: Instant| *final(self) == #[trigger] old(self).spec_update_at(should_blink, now),
            !should_blink ==> *final(self) == old(self).spec_disable(),
    {
        let now = Instant::now();
        self.update_at(should_blink, now);
    }
}

/// An effect: a node of the tree that a profile is turned into.
///
/// A group owns the effects that it holds, and no effect is held twice.
#[derive(Debug, PartialEq, Eq)]
pub enum LedEffect {
    /// LEDs that show a flag or the redline.
    Blink(BlinkEffect),
    /// Effects that are shown together.
    Group(EffectGroup),
    /// LEDs that show the RPM along a gradient.
    RpmGradient(RpmGradientEffect),
    /// One segment of LEDs that show the RPM.
    Segment(LedSegment),
    /// Segments of LEDs that show the RPM.
    RpmSegments(RpmSegmentsEffect),
}

/// The LED groups that the first `n` of `effects` show, in order.
pub open spec fn leds_of(effects: Seq<LedEffect>, n: nat) -> Seq<LedGroup>
    decreases effects, n,
{
    if n == 0 || n > effects.len() {
        Seq::empty()
    } else {
        leds_of(effects, (n - 1) as nat) + effects[n - 1].spec_leds()
    }
}

/// The number of LEDs that the first `n` of `effects` control.
pub open spec fn led_count_of(effects: Seq<LedEffect>, n: nat) -> nat
    decreases effects, n,
{
    if n == 0 || n > effects.len() {
        0
    } else {
        led_count_of(effects, (n - 1) as nat) + effects[n - 1].spec_led_count()
    }
}

/// What the references `groups` point to.
pub open spec fn shown(groups: Seq<&LedGroup>) -> Seq<LedGroup> {
    Seq::new(groups.len(), |i: int| *groups[i])
}

/// The references `groups` point, one by one, to the LED groups `leds`.
pub open spec fn shows(groups: Seq<&LedGroup>, leds: Seq<LedGroup>) -> bool {
    shown(groups) == leds
}

/// `n`, held at the largest `usize`.
pub open spec fn held_at_usize(n: nat) -> nat {
    if n > usize::MAX {
        usize::MAX as nat
    } else {
        n
    }
}

impl LedEffect {
    /// Every effect of the tree is well formed.
    pub open spec fn wf(&self) -> bool
        decreases self,
    {
        match self {
            LedEffect::Blink(effect) => effect.wf(),
            LedEffect::Group(group) => group.wf(),
            LedEffect::RpmGradient(effect) => effect.wf(),
            LedEffect::Segment(effect) => effect.wf(),
            LedEffect::RpmSegments(segments) => segments.inner.wf(),
        }
    }

    /// The position of the LED to which the first LED of the effect is
    /// applied on the device.
    pub open spec fn spec_start_led(&self) -> Positive {
        match self {
            LedEffect::Blink(effect) => effect.on_leds.start_position,
            LedEffect::Group(group) => group.start_position,
            LedEffect::RpmGradient(effect) => effect.state.start_position,
            LedEffect::Segment(effect) => effect.on_leds.start_position,
            LedEffect::RpmSegments(segments) => segments.inner.start_position,
        }
    }

    /// The description that the profile gives of the effect. Groups and
    /// segments have none.
    pub open spec fn spec_description(&self) -> Seq<char> {
        match self {
            LedEffect::Blink(effect) => effect.container.description@,
            LedEffect::RpmGradient(effect) => effect.container.description@,
            _ => Seq::empty(),
        }
    }

    /// The LED groups that the effect shows: its own, or for a group those
    /// of its effects, in their order.
    pub open spec fn spec_leds(&self) -> Seq<LedGroup>
        decreases self,
    {
        match self {
            LedEffect::Blink(effect) => seq![effect.spec_leds()],
            LedEffect::Group(group) => group.spec_leds(),
            LedEffect::RpmGradient(effect) => seq![effect.state],
            LedEffect::Segment(effect) => seq![effect.spec_leds()],
            LedEffect::RpmSegments(segments) => segments.inner.spec_leds(),
        }
    }

    /// The number of LEDs that the effect controls.
    pub open spec fn spec_led_count(&self) -> nat
        decreases self,
    {
        match self {
            LedEffect::Blink(effect) => effect.on_leds.leds@.len(),
            LedEffect::Group(group) => group.spec_led_count(),
            LedEffect::RpmGradient(effect) => effect.state.leds@.len(),
            LedEffect::Segment(effect) => effect.on_leds.leds@.len(),
            LedEffect::RpmSegments(segments) => segments.inner.spec_led_count(),
        }
    }

    /// `next` is the effect after an update with `moment` at the instant
    /// `now`.
    pub open spec fn spec_updated_at(&self, next: &LedEffect, moment: &Moment, now: Instant) -> bool
        decreases self,
    {
        match self {
            LedEffect::Blink(effect) => *next == LedEffect::Blink(
                effect.spec_update_at(moment, now),
            ),
            LedEffect::Group(group) => next matches LedEffect::Group(next_group)
                && group.spec_updated_at(next_group, moment, now),
            LedEffect::RpmGradient(effect) => next matches LedEffect::RpmGradient(next_effect)
                && effect.spec_updated_at(next_effect, moment, now),
            LedEffect::Segment(effect) => *next == LedEffect::Segment(
                effect.spec_update_at(moment, now),
            ),
            LedEffect::RpmSegments(segments) => next matches LedEffect::RpmSegments(next_segments)
                && segments.inner.spec_updated_at(&next_segments.inner, moment, now),
        }
    }

    /// `next` is the effect once it is disabled.
    pub open spec fn spec_disabled(&self, next: &LedEffect) -> bool
        decreases self,
    {
        match self {
            LedEffect::Blink(effect) => *next == LedEffect::Blink(effect.spec_disable()),
            LedEffect::Group(group) => next matches LedEffect::Group(next_group)
                && group.spec_disabled(next_group),
            LedEffect::RpmGradient(effect) => next matches LedEffect::RpmGradient(next_effect)
                && effect.spec_disabled(next_effect),
            LedEffect::Segment(effect) => *next == LedEffect::Segment(effect.spec_disable()),
            LedEffect::RpmSegments(segments) => next matches LedEffect::RpmSegments(next_segments)
                && segments.inner.spec_disabled(&next_segments.inner),
        }
    }

    /// Update the effect with the latest snapshot of the simulator, given
    /// the reading `now` of the clock.
    pub fn update_at(&mut self, moment: &Moment, now: Instant)
        requires
            old(self).wf(),
        ensures
            final(self).wf(),
            old(self).spec_updated_at(final(self), moment, now),
        decreases *old(self), 2nat,
    {
        match self {
            LedEffect::Blink(effect) => effect.update_at(moment, now),
            LedEffect::Group(group) => group.update_at(moment, now),
            LedEffect::RpmGradient(effect) => effect.update_at(moment, now),
            LedEffect::Segment(effect) => effect.update_at(moment, now),
            LedEffect::RpmSegments(segments) => segments.inner.update_at(moment, now),
        }
    }

    /// Update the effect with the latest snapshot of the simulator, at the
    /// current reading of the wall clock.
    pub fn update(&mut self, moment: &Moment)
        requires
            old(self).wf(),
        ensures
            final(self).wf(),
            exists|now: Instant| #[trigger] old(self).spec_updated_at(final(self), moment, now),
    {
        let now = Instant::now();
        self.update_at(moment, now);
    }

    /// Disable all the LEDs this effect controls.
    pub fn disable(&mut self)
        requires
            old(self).wf(),
        ensures
            final(self).wf(),
            old(self).spec_disabled(final(self)),
        decreases *old(self), 1nat,
    {
        match self {
            LedEffect::Blink(effect) => effect.disable(),
            LedEffect::Group(group) => group.disable(),
            LedEffect::RpmGradient(effect) => effect.disable(),
            LedEffect::Segment(effect) => effect.disable(),
            LedEffect::RpmSegments(segments) => segments.inner.disable(),
        }
    }

    /// The start LED of this effect, this is the position of the LED where
    /// the first of its LEDs should be applied to on the device.
    pub fn start_led(&self) -> (position: Positive)
        ensures
            position == self.spec_start_led(),
            position@ >= 1,
    {
        match self {
            LedEffect::Blink(effect) => effect.start_led(),
            LedEffect::Group(group) => group.start_led(),
            LedEffect::RpmGradient(effect) => effect.start_led(),
            LedEffect::Segment(effect) => effect.start_led(),
            LedEffect::RpmSegments(segments) => segments.inner.start_led(),
        }
    }

    /// The description of this effect.
    pub fn description(&self) -> (description: &str)
        ensures
            description@ == self.spec_description(),
    {
        match self {
            LedEffect::Blink(effect) => effect.description(),
            LedEffect::Group(group) => group.description(),
            LedEffect::RpmGradient(effect) => effect.description(),
            LedEffect::Segment(effect) => effect.description(),
            LedEffect::RpmSegments(segments) => segments.inner.description(),
        }
    }

    /// The number of LEDs this effect controls, held at the largest `usize`.
    pub fn led_count(&self) -> (count: usize)
        ensures
            count == held_at_usize(self.spec_led_count()),
        decreases self, 1nat,
    {
        match self {
            LedEffect::Blink(effect) => effect.led_count(),
            LedEffect::Group(group) => group.led_count(),
            LedEffect::RpmGradient(effect) => effect.led_count(),
            LedEffect::Segment(effect) => effect.led_count(),
            LedEffect::RpmSegments(segments) => segments.inner.led_count(),
        }
    }

    /// Adds the LED groups of the effect to `groups`.
    pub fn collect_leds<'a>(&'a self, groups: &mut Vec<&'a LedGroup>)
        ensures
            shows(final(groups)@, shown(old(groups)@) + self.spec_leds()),
        decreases self, 1nat,
    {
        match self {
            LedEffect::Blink(effect) => {
                groups.push(effect.leds());
                assert(shown(groups@) =~= shown(old(groups)@) + self.spec_leds());
            },
            LedEffect::Group(group) => group.collect_leds(groups),
            LedEffect::RpmGradient(effect) => {
                groups.push(effect.leds());
                assert(shown(groups@) =~= shown(old(groups)@) + self.spec_leds());
            },
            LedEffect::Segment(effect) => {
                groups.push(effect.leds());
                assert(shown(groups@) =~= shown(old(groups)@) + self.spec_leds());
            },
            LedEffect::RpmSegments(segments) => segments.inner.collect_leds(groups),
        }
    }

    /// The LED groups that this effect shows.
    pub fn leds(&self) -> (groups: Vec<&LedGroup>)
        ensures
            shows(groups@, self.spec_leds()),
    {
        let mut groups: Vec<&LedGroup> = Vec::new();
        self.collect_leds(&mut groups);
        assert(shown(Seq::<&LedGroup>::empty()) + self.spec_leds() =~= self.spec_leds());
        groups
    }
}

/// Every one of `leds` lies at a position from one on.
pub open spec fn positions_from_one(leds: Seq<LedGroup>) -> bool {
    forall|i: int| 0 <= i < leds.len() ==> (#[trigger] leds[i]).start_position@ >= 1
}

/// Every LED of every one of `leds` is off.
pub open spec fn all_dark(leds: Seq<LedGroup>) -> bool {
    forall|i: int| 0 <= i < leds.len() ==> (#[trigger] leds[i]).all_off()
}

/// The number of LEDs in the first `n` of `leds`.
pub open spec fn total_leds(leds: Seq<LedGroup>, n: nat) -> nat
    decreases n,
{
    if n == 0 || n > leds.len() {
        0
    } else {
        total_leds(leds, (n - 1) as nat) + leds[n - 1].leds@.len()
    }
}

/// The LEDs of two runs of LED groups, one after the other, are as many as
/// those of the one and those of the other.
pub proof fn lemma_total_leds_concat(first: Seq<LedGroup>, second: Seq<LedGroup>, n: nat)
    requires
        n <= second.len(),
    ensures
        total_leds(first + second, first.len() + n) == total_leds(first, first.len())
            + total_leds(second, n),
    decreases n,
{
    if n == 0 {
        lemma_total_leds_prefix(first, first + second, first.len());
    } else {
        lemma_total_leds_concat(first, second, (n - 1) as nat);
        assert((first + second)[first.len() + n - 1] == second[n - 1]);
    }
}

/// The number of LEDs in the first `n` LED groups depends on these alone.
pub proof fn lemma_total_leds_prefix(leds: Seq<LedGroup>, longer: Seq<LedGroup>, n: nat)
    requires
        n <= leds.len() <= longer.len(),
        forall|i: int| 0 <= i < n ==> leds[i] == longer[i],
    ensures
        total_leds(leds, n) == total_leds(longer, n),
    decreases n,
{
    if n > 0 {
        lemma_total_leds_prefix(leds, longer, (n - 1) as nat);
    }
}

/// Every LED group that well formed effects show lies at a position from one
/// on.
pub proof fn lemma_leds_of_positions(effects: Seq<LedEffect>, n: nat)
    requires
        n <= effects.len(),
        forall|i: int| 0 <= i < effects.len() ==> (#[trigger] effects[i]).wf(),
    ensures
        positions_from_one(leds_of(effects, n)),
    decreases effects, n,
{
    if n > 0 {
        lemma_leds_of_positions(effects, (n - 1) as nat);
        effects[n - 1].lemma_positions_from_one();
    }
}

/// The effects control as many LEDs as they show.
pub proof fn lemma_leds_of_count(effects: Seq<LedEffect>, n: nat)
    requires
        n <= effects.len(),
        forall|i: int| 0 <= i < effects.len() ==> (#[trigger] effects[i]).wf(),
    ensures
        led_count_of(effects, n) == total_leds(leds_of(effects, n), leds_of(effects, n).len()),
    decreases effects, n,
{
    if n > 0 {
        lemma_leds_of_count(effects, (n - 1) as nat);
        effects[n - 1].lemma_led_count_is_leds_shown();
        let before = leds_of(effects, (n - 1) as nat);
        let last = effects[n - 1].spec_leds();
        lemma_total_leds_concat(before, last, last.len());
    }
}

/// Effects that are disabled show the LED groups that they showed before,
/// with every LED off.
pub proof fn lemma_leds_of_disabled(effects: Seq<LedEffect>, disabled: Seq<LedEffect>, n: nat)
    requires
        n <= effects.len(),
        effects.len() == disabled.len(),
        forall|i: int| 0 <= i < effects.len() ==> (#[trigger] effects[i]).wf(),
        forall|i: int| 0 <= i < effects.len() ==> (#[trigger] effects[i]).spec_disabled(&disabled[i]),
    ensures
        all_dark(leds_of(disabled, n)),
        leds_of(disabled, n).len() == leds_of(effects, n).len(),
        led_count_of(disabled, n) == led_count_of(effects, n),
    decreases effects, n,
{
    if n > 0 {
        lemma_leds_of_disabled(effects, disabled, (n - 1) as nat);
        effects[n - 1].lemma_disabled_is_dark(&disabled[n - 1]);
    }
}

/// The LED groups `leds` and `others` are of the same LEDs: they are as
/// many, and each lies where its counterpart lies and is as long.
pub open spec fn same_layout(leds: Seq<LedGroup>, others: Seq<LedGroup>) -> bool {
    &&& leds.len() == others.len()
    &&& forall|i: int|
        0 <= i < leds.len() ==> (#[trigger] leds[i]).start_position == others[i].start_position
            && leds[i].leds@.len() == others[i].leds@.len()
}

/// Effects that change one by one without changing their layout keep the
/// layout of all their LED groups.
pub proof fn lemma_leds_of_same_layout(effects: Seq<LedEffect>, changed: Seq<LedEffect>, n: nat)
    requires
        n <= effects.len(),
        effects.len() == changed.len(),
        forall|i: int|
            0 <= i < effects.len() ==> same_layout(
                (#[trigger] effects[i]).spec_leds(),
                changed[i].spec_leds(),
            ),
    ensures
        same_layout(leds_of(effects, n), leds_of(changed, n)),
    decreases n,
{
    if n > 0 {
        lemma_leds_of_same_layout(effects, changed, (n - 1) as nat);
        let before = leds_of(effects, (n - 1) as nat);
        let after = leds_of(changed, (n - 1) as nat);
        let last = effects[n - 1].spec_leds();
        let last_changed = changed[n - 1].spec_leds();
        assert(same_layout(last, last_changed));
        assert forall|i: int| 0 <= i < (before + last).len() implies (#[trigger] (before
            + last)[i]).start_position == (after + last_changed)[i].start_position && (before
            + last)[i].leds@.len() == (after + last_changed)[i].leds@.len() by {
            if i < before.len() {
                assert(before[i].start_position == after[i].start_position);
            } else {
                assert(last[i - before.len()].start_position == last_changed[i
                    - before.len()].start_position);
            }
        }
    }
}

impl LedEffect {
    /// An update or a disabling changes what the LEDs show, never which LEDs
    /// an effect controls: its LED groups stay where they are and as long as
    /// they are.
    pub proof fn lemma_layout_is_fixed(&self, next: &LedEffect, moment: &Moment, now: Instant)
        requires
            self.wf(),
            self.spec_updated_at(next, moment, now) || self.spec_disabled(next),
        ensures
            same_layout(self.spec_leds(), next.spec_leds()),
        decreases self,
    {
        match self {
            LedEffect::Group(group) => {
                let next_group = next->Group_0;
                group.lemma_layout_is_fixed(&next_group, moment, now);
            },
            LedEffect::RpmSegments(segments) => {
                let next_segments = next->RpmSegments_0;
                segments.inner.lemma_layout_is_fixed(&next_segments.inner, moment, now);
            },
            LedEffect::RpmGradient(effect) => {
                let next_effect = next->RpmGradient_0;
                assert(next_effect.state.leds@.len() == effect.state.leds@.len());
            },
            _ => {},
        }
    }

    /// Whatever the profile, every LED group that an effect shows lies at a
    /// position from one on.
    pub proof fn lemma_positions_from_one(&self)
        requires
            self.wf(),
        ensures
            positions_from_one(self.spec_leds()),
        decreases self,
    {
        match self {
            LedEffect::Group(group) => {
                lemma_leds_of_positions(group.states@, group.states@.len());
            },
            LedEffect::RpmSegments(segments) => {
                lemma_leds_of_positions(segments.inner.states@, segments.inner.states@.len());
            },
            _ => {},
        }
    }

    /// An effect controls as many LEDs as it shows; for a group, however
    /// deep, that is the sum of what its effects control.
    pub proof fn lemma_led_count_is_leds_shown(&self)
        requires
            self.wf(),
        ensures
            self.spec_led_count() == total_leds(self.spec_leds(), self.spec_leds().len()),
            self matches LedEffect::Group(group) ==> self.spec_led_count() == led_count_of(
                group.states@,
                group.states@.len(),
            ),
        decreases self,
    {
        match self {
            LedEffect::Group(group) => {
                lemma_leds_of_count(group.states@, group.states@.len());
            },
            LedEffect::RpmSegments(segments) => {
                lemma_leds_of_count(segments.inner.states@, segments.inner.states@.len());
            },
            LedEffect::Blink(effect) => {
                let leds = self.spec_leds();
                assert(total_leds(leds, 0) == 0);
                assert(total_leds(leds, 1) == leds[0].leds@.len());
            },
            LedEffect::RpmGradient(effect) => {
                let leds = self.spec_leds();
                assert(total_leds(leds, 0) == 0);
                assert(total_leds(leds, 1) == leds[0].leds@.len());
            },
            LedEffect::Segment(effect) => {
                let leds = self.spec_leds();
                assert(total_leds(leds, 0) == 0);
                assert(total_leds(leds, 1) == leds[0].leds@.len());
            },
        }
    }

    /// An effect that is disabled, itself or with the group that holds it,
    /// shows every LED that it controls as off, and controls the LEDs that
    /// it controlled before.
    pub proof fn lemma_disabled_is_dark(&self, disabled: &LedEffect)
        requires
            self.wf(),
            self.spec_disabled(disabled),
        ensures
            all_dark(disabled.spec_leds()),
            disabled.spec_leds().len() == self.spec_leds().len(),
            disabled.spec_led_count() == self.spec_led_count(),
        decreases self,
    {
        match self {
            LedEffect::Group(group) => {
                let next = disabled->Group_0;
                lemma_leds_of_disabled(group.states@, next.states@, group.states@.len());
            },
            LedEffect::RpmSegments(segments) => {
                let next = disabled->RpmSegments_0;
                lemma_leds_of_disabled(
                    segments.inner.states@,
                    next.inner.states@,
                    segments.inner.states@.len(),
                );
            },
            _ => {},
        }
    }
}

/// Configuration for a single LED.
#[derive(Debug, Clone, Copy, PartialEq, Eq)]
pub enum LedConfiguration {
    /// The LED is currently turned on.
    On {
        /// The color the RGB LED should display.
        color: Color,
    },
    /// The LED is currently turned off.
    Off,
}

impl Default for LedConfiguration {
    fn default() -> (led: Self)
        ensures
            led == LedConfiguration::Off,
    {
        LedConfiguration::Off
    }
}

/// A group of LEDs an effect produces.
///
/// This struct contains a collection of [`LedConfiguration`] a RGB LED device
/// should apply to its LEDs, from the LED at `start_position` on.
#[derive(Debug, Clone, PartialEq, Eq)]
pub struct LedGroup {
    pub start_position: Positive,
    pub leds: Vec<LedConfiguration>,
}

impl LedGroup {
    /// Every LED of the group is off.
    pub open spec fn all_off(&self) -> bool {
        forall|i: int| 0 <= i < self.leds@.len() ==> self.leds@[i] == LedConfiguration::Off
    }

    /// Every LED of the group is on and shows `color`.
    pub open spec fn all_on(&self, color: Color) -> bool {
        forall|i: int| 0 <= i < self.leds@.len() ==> self.leds@[i] == (LedConfiguration::On { color })
    }

    /// The group is at a position from one on.
    pub open spec fn wf(&self) -> bool {
        self.start_position@ >= 1
    }

    /// Create a new [`LedGroup`] with the given start position and LED
    /// count, each LED turned off.
    pub fn new(start_position: Positive, led_count: Positive) -> (group: Self)
        ensures
            group.wf(),
            group.start_position == start_position,
            group.leds@.len() == led_count@,
            group.all_off(),
    {
        Self::filled(LedConfiguration::Off, start_position, led_count)
    }

    /// Create a new [`LedGroup`] with the given start position and LED
    /// count, each LED will be enabled and configured to display the given
    /// [`Color`].
    pub fn with_color(color: Color, start_position: Positive, led_count: Positive) -> (group: Self)
        ensures
            group.wf(),
            group.start_position == start_position,
            group.leds@.len() == led_count@,
            group.all_on(color),
    {
        Self::filled(LedConfiguration::On { color }, start_position, led_count)
    }

    /// A group of `led_count` LEDs, each of them configured as `led`.
    fn filled(led: LedConfiguration, start_position: Positive, led_count: Positive) -> (group: Self)
        ensures
            group.wf(),
            group.start_position == start_position,
            group.leds@.len() == led_count@,
            forall|i: int| 0 <= i < group.leds@.len() ==> group.leds@[i] == led,
    {
        let count = led_count.get();
        let position = start_position.get();
        let mut leds: Vec<LedConfiguration> = Vec::new();
        let mut i: usize = 0;
        while i < count
            invariant
                i <= count,
                leds@.len() == i,
                forall|j: int| 0 <= j < i ==> leds@[j] == led,
            decreases count - i,
        {
            leds.push(led);
            i += 1;
        }
        LedGroup { start_position, leds }
    }

    /// Get the start position of the first LED for this LED group.
    ///
    /// The RGB LED device might contain more LEDs than this group contains and
    /// the group might not map to the first LED the device has.
    pub fn start_position(&self) -> (position: Positive)
        ensures
            position == self.start_position,
            position@ >= 1,
    {
        let position = self.start_position;
        let _ = position.get();
        position
    }

    /// Get the list of [`LedConfiguration`]s this LED group contains.
    pub fn leds(&self) -> (leds: &[LedConfiguration])
        ensures
            leds@ == self.leds@,
    {
        self.leds.as_slice()
    }
}

} // verus!
