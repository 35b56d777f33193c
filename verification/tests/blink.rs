use simtools::color::Color;
use simtools::led::effects::blink::{BlinkEffect, EffectCondition, FlagColor};
use simtools::led::effects::{
    BlinkConfiguration, BlinkState, BlinkTimings, LedConfiguration, LedEffect, LedGroup,
};
use simtools::led::profiles::flag::FlagContainer;
use simtools::led::profiles::{color_from_str, duration_from_int_ms};
use simtools::moment::{Moment, RacingFlags};
use simtools::positive::Positive;
use simtools::time::{Duration, Instant};

fn position(value: usize) -> Positive {
    Positive::new(value).expect("Invalid start position, must be non-zero")
}

fn color(name: &str) -> Color {
    color_from_str("Color", name).expect("The color should be a valid color")
}

fn leds_off(start_position: usize, count: usize) -> LedGroup {
    LedGroup { start_position: position(start_position), leds: vec![LedConfiguration::Off; count] }
}

fn leds_on(start_position: usize, name: &str, count: usize) -> LedGroup {
    LedGroup {
        start_position: position(start_position),
        leds: vec![LedConfiguration::On { color: color(name) }; count],
    }
}

fn container() -> FlagContainer {
    FlagContainer {
        description: "Generates a static color when the Yellow flag is ON copy".to_string(),
        is_enabled: true,
        led_count: position(3),
        start_position: position(14),
        color: color("Yellow"),
        blink_enabled: true,
        blink_delay: duration_from_int_ms(50),
        dual_blink_timing_enabled: false,
        off_delay: duration_from_int_ms(75),
        on_delay: duration_from_int_ms(12),
    }
}

fn sim_state(flags: RacingFlags) -> Moment {
    Moment { flags: Some(flags), ..Moment::default() }
}

fn at_millis(millis: u128) -> Instant {
    Instant::from_nanos(1_000_000_000 + millis * 1_000_000)
}

#[test]
fn blink_blinking() {
    let container = container();
    let blink_delay = container.blink_delay;
    assert_eq!(blink_delay, Duration::from_nanos(50_000_000));

    let mut flags = RacingFlags::default();
    let mut state = BlinkEffect::new(FlagColor::Yellow, container);

    state.update_at(&sim_state(flags), at_millis(0));

    assert_eq!(&leds_off(14, 3), state.leds(), "The LEDs should stay off if no flag is waving");

    flags.white = true;
    state.update_at(&sim_state(flags), at_millis(1));

    assert_eq!(
        &leds_off(14, 3),
        state.leds(),
        "The white flag should not turn on LEDs for the yellow flag"
    );

    flags.yellow = true;
    state.update_at(&sim_state(flags), at_millis(2));

    assert_eq!(
        &leds_on(14, "Yellow", 3),
        state.leds(),
        "The yellow flag should turn all the LEDs on"
    );

    state.update_at(&sim_state(flags), at_millis(3));
    assert_eq!(
        &leds_on(14, "Yellow", 3),
        state.leds(),
        "The state of the LEDs should not change unless the blink delay has expired"
    );

    state.update_at(&sim_state(flags), at_millis(53));

    assert_eq!(
        &leds_off(14, 3),
        state.leds(),
        "The LEDs should be turned off after the blink delay has passed"
    );

    state.update_at(&sim_state(flags), at_millis(54));
    assert_eq!(
        &leds_off(14, 3),
        state.leds(),
        "The state of the LEDs should not change unless the blink delay has expired"
    );

    state.update_at(&sim_state(flags), at_millis(104));

    assert_eq!(
        &leds_on(14, "yellow", 3),
        state.leds(),
        "The LEDs should be turned on again after the blink delay has passed"
    );

    flags.yellow = false;
    state.update_at(&sim_state(flags), at_millis(105));

    assert_eq!(
        &leds_off(14, 3),
        state.leds(),
        "The LEDs should be turned off if the flag stopped waving"
    );
}

#[test]
fn blink_toggles_exactly_at_the_delay() {
    let mut flags = RacingFlags::default();
    flags.yellow = true;
    let mut state = BlinkEffect::new(FlagColor::Yellow, container());

    state.update_at(&sim_state(flags), Instant::from_nanos(10));
    assert_eq!(&leds_on(14, "Yellow", 3), state.leds());
    assert_eq!(
        state.blink_configuration.state(),
        BlinkState::LedsTurnedOn { state_change: Instant::from_nanos(10) }
    );

    state.update_at(&sim_state(flags), Instant::from_nanos(10 + 49_999_999));
    assert_eq!(&leds_on(14, "Yellow", 3), state.leds(), "One nanosecond is missing");

    state.update_at(&sim_state(flags), Instant::from_nanos(10 + 50_000_000));
    assert_eq!(&leds_off(14, 3), state.leds(), "The delay has passed");
    assert_eq!(
        state.blink_configuration.state(),
        BlinkState::LedsTurnedOff { state_change: Instant::from_nanos(10 + 50_000_000) }
    );
}

#[test]
fn blink_with_two_delays() {
    let mut container = container();
    container.dual_blink_timing_enabled = true;
    let mut flags = RacingFlags::default();
    flags.yellow = true;
    let mut state = BlinkEffect::new(FlagColor::Yellow, container);
    assert_eq!(
        state.blink_configuration,
        BlinkConfiguration::Enabled {
            state: BlinkState::NotBlinking,
            timings: BlinkTimings::Double {
                on_timeout: Duration::from_millis(12),
                off_timeout: Duration::from_millis(75),
            },
        }
    );

    state.update_at(&sim_state(flags), at_millis(0));
    assert_eq!(&leds_on(14, "Yellow", 3), state.leds());
    state.update_at(&sim_state(flags), at_millis(11));
    assert_eq!(&leds_on(14, "Yellow", 3), state.leds());
    state.update_at(&sim_state(flags), at_millis(12));
    assert_eq!(&leds_off(14, 3), state.leds());
    state.update_at(&sim_state(flags), at_millis(12 + 74));
    assert_eq!(&leds_off(14, 3), state.leds());
    state.update_at(&sim_state(flags), at_millis(12 + 75));
    assert_eq!(&leds_on(14, "Yellow", 3), state.leds());
}

#[test]
fn clock_running_backwards_counts_as_no_time() {
    let mut flags = RacingFlags::default();
    flags.yellow = true;
    let mut state = BlinkEffect::new(FlagColor::Yellow, container());
    state.update_at(&sim_state(flags), at_millis(100));
    state.update_at(&sim_state(flags), at_millis(0));
    assert_eq!(&leds_on(14, "Yellow", 3), state.leds());
}

#[test]
fn blink_without_blinking_follows_the_flag() {
    let mut container = container();
    container.blink_enabled = false;
    let mut flags = RacingFlags::default();
    let mut state = BlinkEffect::new(FlagColor::Blue, container);
    assert_eq!(state.blink_configuration, BlinkConfiguration::Disabled);
    assert_eq!(state.condition, EffectCondition::Flag { color: FlagColor::Blue });

    flags.blue = true;
    state.update_at(&sim_state(flags), at_millis(0));
    assert_eq!(&leds_on(14, "Yellow", 3), state.leds());
    state.update_at(&sim_state(flags), at_millis(1000));
    assert_eq!(&leds_on(14, "Yellow", 3), state.leds());
    flags.blue = false;
    state.update_at(&sim_state(flags), at_millis(1001));
    assert_eq!(&leds_off(14, 3), state.leds());
}

#[test]
fn missing_flags_freeze_the_effect() {
    let mut flags = RacingFlags::default();
    flags.yellow = true;
    let mut state = BlinkEffect::new(FlagColor::Yellow, container());
    state.update_at(&sim_state(flags), at_millis(0));
    let before = state.clone();

    state.update_at(&Moment::default(), at_millis(500));
    assert_eq!(state, before, "An update without flags changes nothing");
    assert_eq!(&leds_on(14, "Yellow", 3), state.leds());
}

#[test]
fn redline_blink_effect() {
    let mut state = BlinkEffect::redline(container(), position(2));
    assert_eq!(state.condition, EffectCondition::RedLine);
    assert_eq!(state.start_led(), position(2));
    assert_eq!(state.led_count(), 3);
    assert_eq!(state.description(), "Generates a static color when the Yellow flag is ON copy");

    let mut moment = sim_state(RacingFlags::default());
    moment.vehicle_engine_rotation_speed = Some(simtools::fixed::Fixed::from_int(8900));
    moment.vehicle_max_engine_rotation_speed = Some(simtools::fixed::Fixed::from_int(9000));
    state.update_at(&moment, at_millis(0));
    assert_eq!(&leds_on(2, "Yellow", 3), state.leds());

    moment.vehicle_engine_rotation_speed = Some(simtools::fixed::Fixed::from_int(8000));
    state.update_at(&moment, at_millis(1));
    assert_eq!(&leds_off(2, 3), state.leds());
}

#[test]
fn disabling_a_blink_effect_turns_it_off() {
    let mut flags = RacingFlags::default();
    flags.yellow = true;
    let mut state = BlinkEffect::new(FlagColor::Yellow, container());
    state.update_at(&sim_state(flags), at_millis(0));
    assert_eq!(&leds_on(14, "Yellow", 3), state.leds());

    state.disable();
    assert_eq!(&leds_off(14, 3), state.leds());
    assert!(!state.enabled);
    assert_eq!(state.blink_configuration.state(), BlinkState::NotBlinking);

    let mut effect = LedEffect::Blink(state);
    effect.update_at(&sim_state(flags), at_millis(1));
    effect.disable();
    assert_eq!(effect.leds(), vec![&leds_off(14, 3)]);
}

#[test]
fn blink_configuration_reads_the_clock() {
    let mut configuration = BlinkConfiguration::Enabled {
        state: BlinkState::NotBlinking,
        timings: BlinkTimings::Single { timeout: Duration::from_millis(0) },
    };
    configuration.update(true);
    let first = match configuration.state() {
        BlinkState::LedsTurnedOn { state_change } => state_change,
        other => panic!("The LEDs should be on, not {:?}", other),
    };
    assert!(first.nanos > 0, "The wall clock should be past the epoch");

    configuration.update(true);
    assert!(matches!(configuration.state(), BlinkState::LedsTurnedOff { .. }));
    configuration.update(false);
    assert_eq!(configuration.state(), BlinkState::NotBlinking);

    configuration.update(true);
    configuration.disable();
    assert_eq!(configuration.state(), BlinkState::NotBlinking);

    let mut disabled = BlinkConfiguration::default();
    disabled.update(true);
    assert_eq!(disabled, BlinkConfiguration::Disabled);
    disabled.disable();
    assert_eq!(disabled, BlinkConfiguration::Disabled);
}

#[test]
fn blink_timings() {
    let single = BlinkTimings::Single { timeout: Duration::from_millis(50) };
    assert_eq!(single.on_timeout(), Duration::from_nanos(50_000_000));
    assert_eq!(single.off_timeout(), Duration::from_nanos(50_000_000));

    let double = BlinkTimings::Double {
        on_timeout: Duration::from_millis(12),
        off_timeout: Duration::from_millis(75),
    };
    assert_eq!(double.on_timeout(), Duration::from_nanos(12_000_000));
    assert_eq!(double.off_timeout(), Duration::from_nanos(75_000_000));
}
