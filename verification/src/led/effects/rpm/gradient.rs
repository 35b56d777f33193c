//! The RPM gradient: the higher the RPM, the more LEDs are on, coloured
//! along a gradient of two colours.

use vstd::prelude::*;

use crate::color::{gradient_at, sample_gradient, Color};
use crate::fixed::Fixed;
use crate::led::effects::{BlinkState, BlinkTimings, LedConfiguration, LedGroup};
use crate::led::profiles::rpm::RpmContainer;
use crate::moment::Moment;
use crate::positive::Positive;
use crate::time::Instant;

verus! {

/// The effect of an [`RpmContainer`].
#[derive(Debug, Clone, PartialEq, Eq)]
pub struct RpmGradientEffect {
    pub container: RpmContainer,
    pub state: LedGroup,
    pub blink_state: BlinkState,
}

/// `n`, held at the largest `u32`.
pub open spec fn held_at_u32(n: nat) -> nat {
    if n > u32::MAX {
        u32::MAX as nat
    } else {
        n
    }
}

/// The fraction `num / den` of `count`, rounded down and held within
/// `0..=count`, for a `den` above zero.
pub open spec fn share_of(num: int, den: int, count: nat) -> nat {
    if num <= 0 {
        0
    } else if num >= den {
        count
    } else {
        ((num * count) / den) as nat
    }
}

/// The fraction `num / den` of `count`, rounded down and held within
/// `0..=count`. A fraction of nothing is everything if `num` is above zero,
/// and nothing otherwise.
pub open spec fn lit_count(num: int, den: int, count: nat) -> nat {
    if den > 0 {
        share_of(num, den, count)
    } else if den < 0 {
        share_of(-num, -den, count)
    } else if num > 0 {
        count
    } else {
        0
    }
}

impl RpmGradientEffect {
    /// The LEDs of the effect are as many as its container asks for, and lie
    /// at a position from one on.
    pub open spec fn wf(&self) -> bool {
        &&& self.state.wf()
        &&& self.container.led_count@ >= 1
        &&& self.state.leds@.len() == self.container.led_count@
    }

    /// How far the RPM is on its way through the range of the container, as
    /// a numerator and a denominator.
    ///
    /// With percentages the range is from `percent_min` to `percent_max`
    /// percent of the highest RPM; else it is from `rpm_min` to `rpm_max`.
    pub open spec fn spec_range_fraction(container: &RpmContainer, rpm: Fixed, max_rpm: Fixed) -> (int, int) {
        if container.use_percent {
            (
                100_000 * rpm.thousandths - container.percent_min.thousandths
                    * max_rpm.thousandths,
                max_rpm.thousandths * (container.percent_max.thousandths
                    - container.percent_min.thousandths),
            )
        } else {
            (
                rpm.thousandths - container.rpm_min.thousandths,
                container.rpm_max.thousandths - container.rpm_min.thousandths,
            )
        }
    }

    /// The number of LEDs that the RPM turns on: the fraction of the range
    /// times the number of LEDs, rounded down. A number below zero counts as
    /// none and a number above the number of LEDs as all of them.
    pub open spec fn spec_leds_to_turn_on(container: &RpmContainer, rpm: Fixed, max_rpm: Fixed) -> nat {
        let (num, den) = Self::spec_range_fraction(container, rpm, max_rpm);
        lit_count(num, den, container.led_count@)
    }

    /// Whether the LEDs blink: at the redline, if the container lets them
    /// blink, and not in sixth gear unless the container asks for that too.
    pub open spec fn spec_should_blink(container: &RpmContainer, moment: &Moment) -> bool {
        &&& moment.spec_redline_reached()
        &&& container.blink_enabled
        &&& (container.blink_on_last_gear || moment.vehicle_gear != Some(6i8))
    }

    /// The blink state after an update with `moment` at the instant `now`.
    pub open spec fn spec_next_blink_state(&self, moment: &Moment, now: Instant) -> BlinkState {
        self.blink_state.spec_next(
            Self::spec_should_blink(&self.container, moment),
            BlinkTimings::Single { timeout: self.container.blink_delay },
            now,
        )
    }

    /// The colour of the gradient of `container` at `position`: the gradient
    /// runs from the start colour at the first LED to the end colour at the
    /// last one.
    pub open spec fn spec_color_at(container: &RpmContainer, position: nat) -> Color {
        gradient_at(
            container.start_color,
            container.end_color,
            held_at_u32((container.led_count@ - 1) as nat),
            held_at_u32(position),
        )
    }

    /// Whether the LED with the number `led_number` is on, counted from zero
    /// in the direction in which the LEDs fill, when `lit` LEDs are to turn
    /// on.
    ///
    /// While the LEDs blink they are all on or all off. Else the first `lit`
    /// LEDs are on, or all of them if `gradient_on_all` and `fill_all_leds`
    /// are set.
    pub open spec fn spec_led_enabled(container: &RpmContainer, blink: BlinkState, lit: nat, led_number: nat) -> bool {
        match blink {
            BlinkState::NotBlinking => (container.gradient_on_all && container.fill_all_leds)
                || led_number < lit,
            BlinkState::LedsTurnedOff { .. } => false,
            BlinkState::LedsTurnedOn { .. } => true,
        }
    }

    /// The place on the gradient from which the LED with the number
    /// `led_number` takes its colour when `lit` LEDs are to turn on: its
    /// own, or the place `lit` if `gradient_on_all` is set.
    pub open spec fn spec_gradient_position(container: &RpmContainer, lit: nat, led_number: nat) -> nat {
        if container.gradient_on_all {
            lit
        } else {
            led_number
        }
    }

    /// What the LED with the number `led_number` shows, counted from zero in
    /// the direction in which the LEDs fill, when `lit` LEDs are to turn on:
    /// if it is on, the colour of its place on the gradient.
    pub open spec fn spec_led(container: &RpmContainer, blink: BlinkState, lit: nat, led_number: nat) -> LedConfiguration {
        if Self::spec_led_enabled(container, blink, lit, led_number) {
            LedConfiguration::On {
                color: Self::spec_color_at(
                    container,
                    Self::spec_gradient_position(container, lit, led_number),
                ),
            }
        } else {
            LedConfiguration::Off
        }
    }

    /// The number, in the direction in which the LEDs fill, of the LED at
    /// `index` of the group.
    pub open spec fn spec_led_number(container: &RpmContainer, index: int) -> nat {
        if container.right_to_left {
            (container.led_count@ - 1 - index) as nat
        } else {
            index as nat
        }
    }

    /// The LEDs after an update that found `lit` LEDs to turn on.
    pub open spec fn spec_leds(container: &RpmContainer, blink: BlinkState, lit: nat) -> Seq<LedConfiguration> {
        Seq::new(
            container.led_count@,
            |index: int| Self::spec_led(container, blink, lit, Self::spec_led_number(container, index)),
        )
    }

    /// `next` is the effect after an update with `moment` at the instant
    /// `now`. Where the RPM or the highest RPM is missing nothing changes.
    pub open spec fn spec_updated_at(&self, next: &Self, moment: &Moment, now: Instant) -> bool {
        match (moment.vehicle_engine_rotation_speed, moment.vehicle_max_engine_rotation_speed) {
            (Some(rpm), Some(max_rpm)) => {
                let blink = self.spec_next_blink_state(moment, now);
                &&& next.container == self.container
                &&& next.blink_state == blink
                &&& next.state.start_position == self.state.start_position
                &&& next.state.leds@ == Self::spec_leds(
                    &self.container,
                    blink,
                    Self::spec_leds_to_turn_on(&self.container, rpm, max_rpm),
                )
            },
            _ => *next == *self,
        }
    }

    /// `next` is the effect once it is disabled: no LED is on and nothing
    /// blinks.
    pub open spec fn spec_disabled(&self, next: &Self) -> bool {
        &&& next.container == self.container
        &&& next.blink_state == BlinkState::NotBlinking
        &&& next.state.start_position == self.state.start_position
        &&& next.state.leds@.len() == self.state.leds@.len()
        &&& next.state.all_off()
    }

    /// Without `gradient_on_all` the first LED, where it is on, shows the
    /// start colour of the gradient, and the last one the end colour.
    pub proof fn lemma_gradient_ends(container: &RpmContainer, blink: BlinkState, lit: nat)
        requires
            !container.gradient_on_all,
            container.led_count@ >= 2,
        ensures
            Self::spec_led(container, blink, lit, 0) is On ==> Self::spec_led(
                container,
                blink,
                lit,
                0,
            ) == (LedConfiguration::On { color: container.start_color }),
            Self::spec_led(container, blink, lit, (container.led_count@ - 1) as nat) is On
                ==> Self::spec_led(container, blink, lit, (container.led_count@ - 1) as nat) == (
            LedConfiguration::On { color: container.end_color }),
    {
    }

    /// With `gradient_on_all` every LED that is on shows one colour: that
    /// of the gradient at the place of the number of LEDs to turn on.
    pub proof fn lemma_gradient_on_all_shares_color(
        container: &RpmContainer,
        blink: BlinkState,
        lit: nat,
        index: int,
    )
        requires
            container.gradient_on_all,
            0 <= index < container.led_count@,
        ensures
            Self::spec_leds(container, blink, lit)[index] is On ==> Self::spec_leds(
                container,
                blink,
                lit,
            )[index] == (LedConfiguration::On { color: Self::spec_color_at(container, lit) }),
    {
    }

    /// With `gradient_on_all` and `fill_all_leds` an update turns every LED
    /// on, unless the LEDs blink and are in the off phase; the RPM decides the
    /// colour alone.
    pub proof fn lemma_fill_all_leds(
        container: &RpmContainer,
        blink: BlinkState,
        lit: nat,
        index: int,
    )
        requires
            container.gradient_on_all,
            container.fill_all_leds,
            !(blink is LedsTurnedOff),
            0 <= index < container.led_count@,
        ensures
            Self::spec_leds(container, blink, lit)[index] == (LedConfiguration::On {
                color: Self::spec_color_at(container, lit),
            }),
    {
    }

    /// The effect of `container` with its first LED at `start_position`, all
    /// LEDs off.
    pub fn with_start_position(container: RpmContainer, start_position: Positive) -> (effect: Self)
        ensures
            effect.wf(),
            effect.container == container,
            effect.state.start_position == start_position,
            effect.state.all_off(),
            effect.blink_state == BlinkState::NotBlinking,
    {
        let state = LedGroup::new(start_position, container.led_count);
        let _ = container.led_count.get();
        RpmGradientEffect { state, blink_state: BlinkState::NotBlinking, container }
    }

    /// The effect of `container` at the position that the container gives.
    pub fn new(container: RpmContainer) -> (effect: Self)
        ensures
            effect.wf(),
            effect.container == container,
            effect.state.start_position == container.start_position,
            effect.state.all_off(),
            effect.blink_state == BlinkState::NotBlinking,
    {
        let start_position = container.start_position;
        Self::with_start_position(container, start_position)
    }

    /// The number of LEDs that the RPM turns on.
    pub fn calculate_how_many_leds_to_turn_on(&self, rpm: Fixed, max_rpm: Fixed) -> (lit: usize)
        requires
            self.wf(),
        ensures
            lit == Self::spec_leds_to_turn_on(&self.container, rpm, max_rpm),
            lit <= self.container.led_count@,
    {
        let led_count = self.state.leds.len();
        let (num, den): (i128, i128) = if self.container.use_percent {
            let rpm_wide: i128 = rpm.thousandths as i128;
            let max_wide: i128 = max_rpm.thousandths as i128;
            let min_wide: i128 = self.container.percent_min.thousandths as i128;
            let span: i128 = self.container.percent_max.thousandths as i128 - min_wide;
            assert(-0x4000_0000_0000_0000 <= min_wide * max_wide <= 0x4000_0000_0000_0000)
                by (nonlinear_arith)
                requires
                    -0x8000_0000 <= min_wide < 0x8000_0000,
                    -0x8000_0000 <= max_wide < 0x8000_0000,
            ;
            assert(-0x8000_0000_0000_0000 <= max_wide * span <= 0x8000_0000_0000_0000)
                by (nonlinear_arith)
                requires
                    -0x1_0000_0000 <= span <= 0x1_0000_0000,
                    -0x8000_0000 <= max_wide < 0x8000_0000,
            ;
            (100_000 * rpm_wide - min_wide * max_wide, max_wide * span)
        } else {
            let min_wide: i128 = self.container.rpm_min.thousandths as i128;
            (
                rpm.thousandths as i128 - min_wide,
                self.container.rpm_max.thousandths as i128 - min_wide,
            )
        };
        assert((num as int, den as int) == Self::spec_range_fraction(
            &self.container,
            rpm,
            max_rpm,
        ));
        assert(-0x8000_0000_0000_0000 <= den <= 0x8000_0000_0000_0000);
        if den > 0 {
            share(num, den, led_count)
        } else if den < 0 {
            share(-num, -den, led_count)
        } else if num > 0 {
            led_count
        } else {
            0
        }
    }

    /// Whether the LED with the number `led_number` is on when `lit` LEDs
    /// are to turn on and the blink state is `blink`.
    pub fn led_enabled(&self, blink: BlinkState, lit: usize, led_number: usize) -> (enabled: bool)
        ensures
            enabled == Self::spec_led_enabled(
                &self.container,
                blink,
                lit as nat,
                led_number as nat,
            ),
    {
        match blink {
            BlinkState::NotBlinking => (self.container.gradient_on_all
                && self.container.fill_all_leds) || led_number < lit,
            BlinkState::LedsTurnedOff { .. } => false,
            BlinkState::LedsTurnedOn { .. } => true,
        }
    }

    /// The place on the gradient from which the LED with the number
    /// `led_number` takes its colour when `lit` LEDs are to turn on.
    pub fn gradient_position(&self, lit: usize, led_number: usize) -> (position: usize)
        ensures
            position == Self::spec_gradient_position(
                &self.container,
                lit as nat,
                led_number as nat,
            ),
    {
        if self.container.gradient_on_all {
            lit
        } else {
            led_number
        }
    }

    /// The blink state after an update with `moment` at the instant `now`.
    pub fn calculate_next_blink_state(&self, moment: &Moment, now: Instant) -> (state: BlinkState)
        ensures
            state == self.spec_next_blink_state(moment, now),
    {
        let redline_reached = moment.redline_reached();
        let blink_enabled = self.container.blink_enabled;
        let blink = if self.container.blink_on_last_gear {
            true
        } else {
            match moment.vehicle_gear {
                Some(gear) => gear != 6,
                None => true,
            }
        };
        self.blink_state.next(
            redline_reached && blink_enabled && blink,
            BlinkTimings::Single { timeout: self.container.blink_delay },
            now,
        )
    }

    /// Update the LEDs with the latest snapshot of the simulator, given the
    /// reading `now` of the clock.
    pub fn update_at(&mut self, moment: &Moment, now: Instant)
        requires
            old(self).wf(),
        ensures
            final(self).wf(),
            old(self).spec_updated_at(final(self), moment, now),
    {
        let rpm = match moment.vehicle_engine_rotation_speed {
            Some(rpm) => rpm,
            None => {
                return ;
            },
        };
        let max_rpm = match moment.vehicle_max_engine_rotation_speed {
            Some(max_rpm) => max_rpm,
            None => {
                return ;
            },
        };
        let next_blink_state = self.calculate_next_blink_state(moment, now);
        let leds_to_turn_on = self.calculate_how_many_leds_to_turn_on(rpm, max_rpm);
        let led_count = self.state.leds.len();
        let last = clamp_to_u32(led_count - 1);

        let mut led_number: usize = 0;
        while led_number < led_count
            invariant
                led_number <= led_count,
                led_count == self.container.led_count@,
                self.state.leds@.len() == led_count,
                self.container == old(self).container,
                self.blink_state == old(self).blink_state,
                self.state.start_position == old(self).state.start_position,
                last == held_at_u32((led_count - 1) as nat),
                forall|index: int|
                    0 <= index < led_count && Self::spec_led_number(&self.container, index)
                        < led_number ==> #[trigger] self.state.leds@[index] == Self::spec_led(
                        &self.container,
                        next_blink_state,
                        leds_to_turn_on as nat,
                        Self::spec_led_number(&self.container, index),
                    ),
            decreases led_count - led_number,
        {
            let index = if self.container.right_to_left {
                led_count - 1 - led_number
            } else {
                led_number
            };
            let led = if self.led_enabled(next_blink_state, leds_to_turn_on, led_number) {
                let position = clamp_to_u32(self.gradient_position(leds_to_turn_on, led_number));
                let color = sample_gradient(
                    self.container.start_color,
                    self.container.end_color,
                    last,
                    position,
                );
                LedConfiguration::On { color }
            } else {
                LedConfiguration::Off
            };
            self.state.leds.set(index, led);
            led_number += 1;
        }
        self.blink_state = next_blink_state;
        assert(self.state.leds@ =~= Self::spec_leds(
            &self.container,
            next_blink_state,
            leds_to_turn_on as nat,
        ));
    }

    /// Update the LEDs with the latest snapshot of the simulator, at the
    /// current reading of the wall clock.
    pub fn update(&mut self, moment: &Moment)
        requires
            old(self).wf(),
        ensures
            final(self).wf(),
            exists|now: Instant| #[trigger] old(self).spec_updated_at(final(self), moment, now),
    {
        let now = Instant::now();
        self.update_at(moment, now);
    }

    /// Turn every LED off and stop the blinking.
    pub fn disable(&mut self)
        requires
            old(self).wf(),
        ensures
            final(self).wf(),
            old(self).spec_disabled(final(self)),
    {
        self.blink_state = BlinkState::NotBlinking;
        let led_count = self.state.leds.len();
        let mut i: usize = 0;
        while i < led_count
            invariant
                i <= led_count,
                self.state.leds@.len() == led_count,
                self.container == old(self).container,
                self.blink_state == BlinkState::NotBlinking,
                self.state.start_position == old(self).state.start_position,
                forall|j: int| 0 <= j < i ==> self.state.leds@[j] == LedConfiguration::Off,
            decreases led_count - i,
        {
            self.state.leds.set(i, LedConfiguration::Off);
            i += 1;
        }
    }

    /// The position of the first LED of the effect.
    pub fn start_led(&self) -> (position: Positive)
        ensures
            position == self.state.start_position,
            position@ >= 1,
    {
        self.state.start_position()
    }

    /// The description that the profile gives of the effect.
    pub fn description(&self) -> (description: &str)
        ensures
            description@ == self.container.description@,
    {
        self.container.description.as_str()
    }

    /// The LEDs as the last update left them.
    pub fn leds(&self) -> (group: &LedGroup)
        ensures
            *group == self.state,
    {
        &self.state
    }

    /// The number of LEDs of the effect.
    pub fn led_count(&self) -> (count: usize)
        ensures
            count == self.state.leds@.len(),
    {
        self.state.leds.len()
    }
}

/// `num / den` of `count`, for `den` above zero.
fn share(num: i128, den: i128, count: usize) -> (lit: usize)
    requires
        0 < den <= 0x8000_0000_0000_0000,
    ensures
        lit == share_of(num as int, den as int, count as nat),
        lit <= count,
{
    if num <= 0 {
        0
    } else if num >= den {
        count
    } else {
        let count_wide: i128 = count as i128;
        assert(0 <= num * count_wide <= 0x7fff_ffff_ffff_ffff * 0xffff_ffff_ffff_ffff)
            by (nonlinear_arith)
            requires
                0 < num <= 0x7fff_ffff_ffff_ffff,
                0 <= count_wide <= 0xffff_ffff_ffff_ffff,
        ;
        let product: i128 = num * count_wide;
        let quotient: i128 = product / den;
        proof {
            assert(product <= count_wide * den) by (nonlinear_arith)
                requires
                    product == num * count_wide,
                    0 < num < den,
                    0 <= count_wide,
            ;
            vstd::arithmetic::div_mod::lemma_div_pos_is_pos(product as int, den as int);
            vstd::arithmetic::div_mod::lemma_div_is_ordered(
                product as int,
                count_wide * den,
                den as int,
            );
            vstd::arithmetic::div_mod::lemma_div_by_multiple(count_wide as int, den as int);
        }
        quotient as usize
    }
}

/// `n`, held at the largest `u32`.
fn clamp_to_u32(n: usize) -> (held: u32)
    ensures
        held == held_at_u32(n as nat),
{
    if n > u32::MAX as usize {
        u32::MAX
    } else {
        n as u32
    }
}

} // verus!
