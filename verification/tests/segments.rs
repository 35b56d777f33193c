use simtools::color::Color;
use simtools::fixed::Fixed;
use simtools::led::effects::rpm::segments::{LedSegment, RpmSegmentsEffect};
use simtools::led::effects::{
    BlinkConfiguration, BlinkState, BlinkTimings, LedConfiguration, LedEffect, LedGroup,
};
use simtools::led::profiles::rpm::{
    LedSegment as SegmentConfiguration, LedSegmentHelper, RpmMode, RpmSegmentsContainer,
    RpmSegmentsContainerHelper, StartValue,
};
use simtools::led::profiles::{
    color_from_str, default_non_zero, default_true, duration_from_int_ms, InvalidReason,
};
use simtools::moment::Moment;
use simtools::positive::Positive;
use simtools::time::{Duration, Instant};

const MAX_RPM: f64 = 9000.0;

fn position(value: usize) -> Positive {
    Positive::new(value).expect("Invalid start position, must be non-zero")
}

fn color(name: &str) -> Color {
    color_from_str("Color", name).expect("The color should be a valid color")
}

fn leds_off(start_position: usize, count: usize) -> LedGroup {
    LedGroup { start_position: position(start_position), leds: vec![LedConfiguration::Off; count] }
}

fn leds_on(start_position: usize, name: &str, count: usize) -> LedGroup {
    LedGroup {
        start_position: position(start_position),
        leds: vec![LedConfiguration::On { color: color(name) }; count],
    }
}

fn fixed(value: f64) -> Fixed {
    Fixed::from_thousandths((value * 1000.0).round() as i32)
}

fn sim_state(value: f64, max: f64) -> Moment {
    Moment {
        vehicle_engine_rotation_speed: Some(fixed(value)),
        vehicle_max_engine_rotation_speed: Some(fixed(max)),
        ..Moment::default()
    }
}

fn at_millis(millis: u128) -> Instant {
    Instant::from_nanos(1_000_000_000 + millis * 1_000_000)
}

fn helper(
    start_value: i32,
    normal_color: &str,
    blinking_color: &str,
    use_blinking_color: bool,
    led_count: usize,
) -> LedSegmentHelper {
    LedSegmentHelper {
        start_value: Fixed::from_int(start_value),
        normal_color: color_from_str("NormalColor", normal_color).unwrap(),
        blinking_color: color_from_str("BlinkingColor", blinking_color).unwrap(),
        use_blinking_color,
        led_count: position(led_count),
    }
}

fn segment(
    mode: RpmMode,
    start_value: i32,
    normal_color: &str,
    blinking_color: &str,
    use_blinking_color: bool,
    led_count: usize,
) -> SegmentConfiguration {
    SegmentConfiguration::new(
        mode,
        helper(start_value, normal_color, blinking_color, use_blinking_color, led_count),
    )
}

fn rpm_percentage_container() -> RpmSegmentsContainer {
    RpmSegmentsContainer::from_helper(RpmSegmentsContainerHelper {
        description: String::new(),
        is_enabled: true,
        start_position: default_non_zero(),
        blink_enabled: true,
        blink_delay: duration_from_int_ms(125),
        blink_on_last_gear: true,
        segments: vec![
            helper(70, "Lime", "Blue", default_true(), 5),
            helper(85, "Red", "Blue", false, 5),
            helper(90, "Blue", "Blue", default_true(), 5),
        ],
        rpm_mode: RpmMode::from_code("RpmMode", 0).expect("The RPM mode should be a known one"),
    })
}

fn rpm_container() -> RpmSegmentsContainer {
    RpmSegmentsContainer::from_helper(RpmSegmentsContainerHelper {
        description: String::new(),
        is_enabled: true,
        start_position: default_non_zero(),
        blink_enabled: false,
        blink_delay: duration_from_int_ms(125),
        blink_on_last_gear: true,
        segments: vec![
            helper(5000, "Lime", "Blue", default_true(), 3),
            helper(8000, "Blue", "Blue", default_true(), 3),
        ],
        rpm_mode: RpmMode::from_code("RpmMode", 2).expect("The RPM mode should be a known one"),
    })
}

fn assert_led_group_eq(expected: Vec<LedGroup>, effect: &RpmSegmentsEffect, description: &str) {
    let computed = effect.leds();
    for (index, expected) in expected.iter().enumerate() {
        let computed = computed
            .get(index)
            .unwrap_or_else(|| panic!("Couldn't find the {index}th LED segment"));
        assert_eq!(
            expected.start_position(),
            computed.start_position(),
            "The start position of the first LED in the LedGroups should match"
        );
        assert_eq!(&expected, computed, "{}", description);
    }
}

#[test]
fn effect_constructor() {
    let container = rpm_percentage_container();
    let description = container.description.clone();
    let effect = RpmSegmentsEffect::with_start_position(container, Positive::one());

    assert_eq!(effect.start_led(), Positive::one());
    assert_eq!(effect.description(), description);
    assert_eq!(effect.inner.states[1].start_led(), Positive::new(6).unwrap());
}

#[test]
fn segments_rpm_percentage() {
    let container = rpm_percentage_container();
    let blink_delay = container.blink_delay;
    assert_eq!(blink_delay, Duration::from_millis(125));
    let mut effect = RpmSegmentsEffect::with_start_position(container, Positive::one());

    effect.update_at(&sim_state(0.0, MAX_RPM), at_millis(0));
    assert_led_group_eq(
        vec![leds_off(1, 5), leds_off(6, 5), leds_off(11, 5)],
        &effect,
        "The LEDs should stay off if no flag is waving",
    );

    effect.update_at(&sim_state(0.70 * MAX_RPM, MAX_RPM), at_millis(1));
    assert_led_group_eq(
        vec![leds_on(1, "Lime", 5), leds_off(6, 5), leds_off(11, 5)],
        &effect,
        "The LEDs should stay off if no flag is waving",
    );

    effect.update_at(&sim_state(0.85 * MAX_RPM, MAX_RPM), at_millis(2));
    assert_led_group_eq(
        vec![leds_on(1, "Lime", 5), leds_on(6, "Red", 5), leds_off(11, 5)],
        &effect,
        "The LEDs should stay off if no flag is waving",
    );

    effect.update_at(&sim_state(0.90 * MAX_RPM, MAX_RPM), at_millis(3));
    assert_led_group_eq(
        vec![leds_on(1, "Lime", 5), leds_on(6, "Red", 5), leds_on(11, "Blue", 5)],
        &effect,
        "The LEDs should stay off if no flag is waving",
    );

    effect.update_at(&sim_state(0.99 * MAX_RPM, MAX_RPM), at_millis(4));
    assert_led_group_eq(
        vec![leds_on(1, "Blue", 5), leds_on(6, "Red", 5), leds_on(11, "Blue", 5)],
        &effect,
        "The LEDs should stay off if no flag is waving",
    );

    effect.update_at(&sim_state(0.99 * MAX_RPM, MAX_RPM), at_millis(4 + 125));
    assert_led_group_eq(
        vec![leds_off(1, 5), leds_off(6, 5), leds_off(11, 5)],
        &effect,
        "The LEDs should stay off if no flag is waving",
    );

    effect.update_at(&sim_state(0.99 * MAX_RPM, MAX_RPM), at_millis(4 + 250));
    assert_led_group_eq(
        vec![leds_on(1, "Blue", 5), leds_on(6, "Red", 5), leds_on(11, "Blue", 5)],
        &effect,
        "The LEDs should stay off if no flag is waving",
    );

    effect.disable();

    assert_led_group_eq(
        vec![leds_off(1, 5), leds_off(6, 5), leds_off(11, 5)],
        &effect,
        "The LEDs should stay off if no flag is waving",
    );
}

#[test]
fn rpm() {
    let container = rpm_container();
    let mut effect = RpmSegmentsEffect::with_start_position(container, Positive::one());

    effect.update_at(&sim_state(0.0, MAX_RPM), at_millis(0));
    assert_led_group_eq(
        vec![leds_off(1, 3), leds_off(4, 3)],
        &effect,
        "Initially, the LEDs should be turned off",
    );

    effect.update_at(&sim_state(5000.0, MAX_RPM), at_millis(1));
    assert_led_group_eq(
        vec![leds_on(1, "Lime", 3), leds_off(4, 3)],
        &effect,
        "The first LED segment should be lime when we reach 5000 RPM",
    );

    effect.update_at(&sim_state(9000.0, MAX_RPM), at_millis(2));
    assert_led_group_eq(
        vec![leds_on(1, "Lime", 3), leds_on(4, "Blue", 3)],
        &effect,
        "The next segment, the blue one, should turn on after 9000 RPM as well",
    );
}

#[test]
fn segments_basics() {
    let mut effect = RpmSegmentsEffect::with_start_position(rpm_percentage_container(), position(4));
    assert_eq!(effect.start_led(), position(4));
    assert_eq!(effect.led_count(), 15);
    let starts: Vec<usize> =
        effect.leds().iter().map(|group| group.start_position().get()).collect();
    assert_eq!(starts, vec![4, 9, 14]);
    effect.update(&sim_state(0.90 * MAX_RPM, MAX_RPM));
    assert_led_group_eq(
        vec![leds_on(4, "Lime", 5), leds_on(9, "Red", 5), leds_on(14, "Blue", 5)],
        &effect,
        "An update at the time of the wall clock",
    );

    let mut effect = LedEffect::RpmSegments(effect);
    assert_eq!(effect.led_count(), 15);
    assert_eq!(effect.start_led(), position(4));
    assert_eq!(effect.description(), "");
    effect.disable();
    assert_eq!(effect.leds(), vec![&leds_off(4, 5), &leds_off(9, 5), &leds_off(14, 5)]);
}

#[test]
fn rpm_modes() {
    assert_eq!(RpmMode::from_code("RpmMode", 0), Ok(RpmMode::RpmPercentage));
    assert_eq!(RpmMode::from_code("RpmMode", 1), Ok(RpmMode::RedlinePercentage));
    assert_eq!(RpmMode::from_code("RpmMode", 2), Ok(RpmMode::Rpm));
    let error = RpmMode::from_code("RpmMode", 3).expect_err("Mode 3 is not a mode");
    assert_eq!(error.field, "RpmMode");
    assert_eq!(error.reason, InvalidReason::UnknownRpmMode);
    assert!(RpmMode::from_code("Mode", 255).is_err());

    let made = segment(RpmMode::Rpm, 5000, "Lime", "Blue", true, 3);
    assert_eq!(made.start_value, StartValue::Rpm(Fixed::from_int(5000)));
    assert_eq!(made.normal_color, color("Lime"));
    assert_eq!(made.blinking_color, Some(color("Blue")));
    assert_eq!(made.led_count, position(3));
    let made = segment(RpmMode::RpmPercentage, 70, "Lime", "Blue", false, 3);
    assert_eq!(made.start_value, StartValue::RpmPercentage(Fixed::from_int(70)));
    assert_eq!(made.blinking_color, None);
    let made = segment(RpmMode::RedlinePercentage, 70, "Lime", "Blue", false, 3);
    assert_eq!(made.start_value, StartValue::RedlinePercentage(Fixed::from_int(70)));

    let container = rpm_percentage_container();
    assert_eq!(container.segments.len(), 3);
    assert_eq!(container.segments[0], segment(RpmMode::RpmPercentage, 70, "Lime", "Blue", true, 5));
    assert_eq!(container.segments[1], segment(RpmMode::RpmPercentage, 85, "Red", "Blue", false, 5));
    assert_eq!(container.segments[2], segment(RpmMode::RpmPercentage, 90, "Blue", "Blue", true, 5));
    assert_eq!(container.blink_delay, Duration::from_millis(125));
    assert!(container.blink_enabled && container.is_enabled && container.blink_on_last_gear);
    assert_eq!(container.start_position, position(1));
}

#[test]
fn start_values() {
    let moment = sim_state(6300.0, MAX_RPM);
    assert_eq!(StartValue::Rpm(fixed(6300.0)).reached(&moment), Some(true));
    assert_eq!(StartValue::Rpm(fixed(6300.001)).reached(&moment), Some(false));
    assert_eq!(StartValue::RpmPercentage(fixed(70.0)).reached(&moment), Some(true));
    assert_eq!(StartValue::RpmPercentage(fixed(70.001)).reached(&moment), Some(false));
    // The redline begins at 8820 RPM, of which 6300 RPM are 71.428... percent.
    assert_eq!(StartValue::RedlinePercentage(fixed(71.428)).reached(&moment), Some(true));
    assert_eq!(StartValue::RedlinePercentage(fixed(71.429)).reached(&moment), Some(false));

    let mut without_max = moment;
    without_max.vehicle_max_engine_rotation_speed = None;
    assert_eq!(StartValue::Rpm(fixed(6300.0)).reached(&without_max), Some(true));
    assert_eq!(StartValue::RpmPercentage(fixed(70.0)).reached(&without_max), None);
    assert_eq!(StartValue::RedlinePercentage(fixed(70.0)).reached(&without_max), None);
    assert_eq!(StartValue::Rpm(fixed(0.0)).reached(&Moment::default()), None);

    assert!(Moment::rpm_percentage_at_least(fixed(1.0), fixed(0.0), fixed(1000.0)));
    assert!(!Moment::rpm_percentage_at_least(fixed(0.0), fixed(0.0), fixed(0.0)));
    assert!(Moment::rpm_percentage_at_least(fixed(-5.0), fixed(-10.0), fixed(50.0)));
    assert!(!Moment::rpm_percentage_at_least(fixed(-4.0), fixed(-10.0), fixed(50.0)));
    let most = Fixed::from_thousandths(i32::MAX);
    let least = Fixed::from_thousandths(i32::MIN);
    assert!(Moment::redline_percentage_at_least(most, most, most) == false);
    assert!(Moment::redline_percentage_at_least(least, least, least));
}

#[test]
fn one_segment() {
    let on_leds = leds_on(2, "Lime", 2);
    let mut effect = LedSegment {
        start_value: StartValue::Rpm(fixed(5000.0)),
        enabled: false,
        on_leds: on_leds.clone(),
        off_leds: leds_off(2, 2),
        blink_leds: None,
        blink_configuration: BlinkConfiguration::Enabled {
            state: BlinkState::NotBlinking,
            timings: BlinkTimings::Single { timeout: Duration::from_millis(10) },
        },
    };
    assert_eq!(effect.leds(), &leds_off(2, 2));
    assert_eq!(effect.start_led(), position(2));
    assert_eq!(effect.led_count(), 2);
    assert_eq!(effect.description(), "");

    effect.update_at(&sim_state(9000.0, MAX_RPM), at_millis(0));
    assert_eq!(effect.leds(), &on_leds, "Without a blink color the normal one blinks");
    effect.update_at(&sim_state(9000.0, MAX_RPM), at_millis(10));
    assert_eq!(effect.leds(), &leds_off(2, 2));

    let mut moment = sim_state(9000.0, MAX_RPM);
    moment.vehicle_engine_rotation_speed = None;
    let before = effect.clone();
    effect.update_at(&moment, at_millis(20));
    assert_eq!(effect, before, "An update without the RPM changes nothing");

    effect.update_at(&sim_state(4000.0, MAX_RPM), at_millis(30));
    assert_eq!(effect.leds(), &leds_off(2, 2));
    effect.update_at(&sim_state(6000.0, MAX_RPM), at_millis(31));
    assert_eq!(effect.leds(), &on_leds);
    effect.disable();
    assert_eq!(effect.leds(), &leds_off(2, 2));
    effect.update(&sim_state(6000.0, MAX_RPM));
    assert_eq!(effect.leds(), &on_leds);
}
