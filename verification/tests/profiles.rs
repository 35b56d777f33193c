use simtools::color::Color;
use simtools::fixed::Fixed;
use simtools::led::effects::{LedConfiguration, LedGroup};
use simtools::led::profiles::{
    color_from_str, default_non_zero, default_true, duration_from_int_ms, ContainerType,
    InvalidProfile, InvalidReason,
};
use simtools::moment::{Moment, RacingFlags};
use simtools::positive::Positive;
use simtools::time::{Duration, Instant};

fn rgb(r: u8, g: u8, b: u8) -> Color {
    Color { r, g, b, a: 255 }
}

fn refused(text: &str) -> InvalidReason {
    let error = color_from_str("Color", text).expect_err("The text should be refused");
    assert_eq!(error.field, "Color");
    error.reason
}

#[test]
fn color_parsing() {
    let color =
        color_from_str("color", "Yellow").expect("We should be able to parse a color with a name");
    assert_eq!([color.r, color.g, color.b, color.a], [255, 255, 0, 255]);

    let color =
        color_from_str("color", "#ff00ff").expect("We should be able to parse a color with a name");
    assert_eq!([color.r, color.g, color.b, color.a], [255, 0, 255, 255]);

    let color = color_from_str("color", "0, 255, 0")
        .expect("We should be able to parse a color with a name");
    assert_eq!([color.r, color.g, color.b, color.a], [0, 255, 0, 255]);

    color_from_str("color", "0, 700, 0")
        .expect_err("We should not be able to parse a color value that is outside of our u8 range");
}

#[test]
fn colors_of_three_numbers() {
    assert_eq!(color_from_str("c", "1,2,3"), Ok(rgb(1, 2, 3)));
    assert_eq!(color_from_str("c", " 255 ,\t0,  +7 "), Ok(rgb(255, 0, 7)));
    assert_eq!(color_from_str("c", "007,000,0255"), Ok(rgb(7, 0, 255)));
    assert_eq!(color_from_str("c", "\u{a0}1\u{2003},2\u{3000},\u{85}3"), Ok(rgb(1, 2, 3)));

    assert_eq!(refused("256,0,0"), InvalidReason::ColorComponentOutOfRange);
    assert_eq!(refused("0,0,1000"), InvalidReason::ColorComponentOutOfRange);
    assert_eq!(refused("0, 700, 0"), InvalidReason::ColorComponentOutOfRange);
    assert_eq!(refused("999x,0,0"), InvalidReason::ColorComponentOutOfRange);
    assert_eq!(refused("9x99,0,0"), InvalidReason::MalformedColor);
    assert_eq!(refused("a,b,c"), InvalidReason::MalformedColor);
    assert_eq!(refused("1,,3"), InvalidReason::MalformedColor);
    assert_eq!(refused(",,"), InvalidReason::MalformedColor);
    assert_eq!(refused("1,2,+"), InvalidReason::MalformedColor);
    assert_eq!(refused("-1,2,3"), InvalidReason::MalformedColor);
    assert_eq!(refused("1 0,2,3"), InvalidReason::MalformedColor);
    assert_eq!(refused("1.0,2,3"), InvalidReason::MalformedColor);
    assert_eq!(refused("rgb(1,2,3)"), InvalidReason::MalformedColor);
    assert_eq!(refused("300,x,0"), InvalidReason::ColorComponentOutOfRange);
    assert_eq!(refused("x,300,0"), InvalidReason::MalformedColor);
}

#[test]
fn colors_of_css() {
    assert_eq!(color_from_str("c", "red"), Ok(rgb(255, 0, 0)));
    assert_eq!(color_from_str("c", "Lime"), Ok(rgb(0, 255, 0)));
    assert_eq!(color_from_str("c", "#102030"), Ok(rgb(16, 32, 48)));
    assert_eq!(color_from_str("c", "#10203040"), Ok(Color { r: 16, g: 32, b: 48, a: 64 }));
    assert_eq!(color_from_str("c", "rgb(1,2,3,0.5)"), Ok(Color { r: 1, g: 2, b: 3, a: 128 }));
    assert_eq!(color_from_str("c", "1,2"), Err(InvalidProfile {
        field: "c".to_string(),
        reason: InvalidReason::MalformedColor
    }));
    assert_eq!(refused("1,2,3,4"), InvalidReason::MalformedColor);
    assert_eq!(refused("no such color"), InvalidReason::MalformedColor);
    assert_eq!(refused(""), InvalidReason::MalformedColor);
    assert_eq!(refused("#12345"), InvalidReason::MalformedColor);
}

#[test]
fn container_types() {
    let read = ContainerType::from_discriminator;
    assert_eq!(read("RPMContainer"), ContainerType::Rpm);
    assert_eq!(read("RPMSegmentsContainer"), ContainerType::RpmSegments);
    assert_eq!(read("RedlineReachedContainer"), ContainerType::RedlineReached);
    assert_eq!(read("SpeedLimiterAnimationContainer"), ContainerType::SpeedLimiterAnimation);
    assert_eq!(read("YellowFlagContainer"), ContainerType::YellowFlag);
    assert_eq!(read("BlueFlagContainer"), ContainerType::BlueFlag);
    assert_eq!(read("WhiteFlagContainer"), ContainerType::WhiteFlag);
    assert_eq!(read("GroupContainer"), ContainerType::Group);
    assert_eq!(read("GameRunningGroupContainer"), ContainerType::GameRunningGroup);
    assert_eq!(read("GameCarStatedGroupContainer"), ContainerType::CarStartedGroup);
    assert_eq!(read("CustomConditionalGroupContainer"), ContainerType::ConditionalGroup);

    assert_eq!(read("GameCarStartedGroupContainer"), ContainerType::Unknown);
    assert_eq!(read("rpmcontainer"), ContainerType::Unknown);
    assert_eq!(read(""), ContainerType::Unknown);
    assert_eq!(read("RPMContainer "), ContainerType::Unknown);
    assert_eq!(read("RPMContainer."), ContainerType::Unknown);
    assert_eq!(read("XRPMContainer"), ContainerType::Unknown);

    assert_eq!(
        read("SimHub.Plugins.OutputPlugins.GraphicalDash.LedModules.RPMContainer"),
        ContainerType::Rpm
    );
    assert_eq!(read(".GroupContainer"), ContainerType::Group);
    assert_eq!(read("RPMContainer.GroupContainer"), ContainerType::Group);
    assert_eq!(read("GroupContainer.Other"), ContainerType::Unknown);
    assert_eq!(read("é.WhiteFlagContainer"), ContainerType::WhiteFlag);
}

#[test]
fn defaults_and_durations() {
    assert_eq!(default_non_zero(), Positive::one());
    assert_eq!(default_non_zero().get(), 1);
    assert!(default_true());
    assert_eq!(duration_from_int_ms(0), Duration::from_nanos(0));
    assert_eq!(duration_from_int_ms(50), Duration::from_nanos(50_000_000));
    assert_eq!(
        duration_from_int_ms(u64::MAX),
        Duration::from_nanos(u64::MAX as u128 * 1_000_000)
    );
}

#[test]
fn positions() {
    assert_eq!(Positive::new(0), None);
    assert_eq!(Positive::new(1), Some(Positive::one()));
    assert_eq!(Positive::new(17).unwrap().get(), 17);
    assert_eq!(Positive::new(usize::MAX).unwrap().get(), usize::MAX);
    let three = Positive::new(3).unwrap();
    assert_eq!(three.saturating_add(0), three);
    assert_eq!(three.saturating_add(4).get(), 7);
    assert_eq!(three.saturating_add(usize::MAX - 3).get(), usize::MAX);
    assert_eq!(three.saturating_add(usize::MAX - 2).get(), usize::MAX);
    assert_eq!(three.saturating_add(usize::MAX).get(), usize::MAX);
}

#[test]
fn fixed_numbers() {
    assert_eq!(Fixed::from_int(85), Fixed::from_thousandths(85_000));
    assert_eq!(Fixed::from_int(-3), Fixed::from_thousandths(-3_000));
    assert_eq!(Fixed::from_int(2_147_483), Fixed::from_thousandths(2_147_483_000));
    assert_eq!(Fixed::from_int(2_147_484), Fixed::from_thousandths(i32::MAX));
    assert_eq!(Fixed::from_int(-2_147_484), Fixed::from_thousandths(i32::MIN));
    assert_eq!(Fixed::from_int(i32::MAX), Fixed::from_thousandths(i32::MAX));
}

#[test]
fn elapsed_time() {
    let start = Instant::from_nanos(100);
    assert_eq!(start.elapsed_at(Instant::from_nanos(350)), Duration::from_nanos(250));
    assert_eq!(start.elapsed_at(Instant::from_nanos(100)), Duration::from_nanos(0));
    assert_eq!(start.elapsed_at(Instant::from_nanos(99)), Duration::from_nanos(0));
    assert!(start.expired_at(Instant::from_nanos(350), Duration::from_nanos(250)));
    assert!(!start.expired_at(Instant::from_nanos(349), Duration::from_nanos(250)));
    assert!(start.expired_at(Instant::from_nanos(0), Duration::from_nanos(0)));
    assert_eq!(Duration::from_millis(3), Duration::from_nanos(3_000_000));
    assert_eq!(Instant::from_reading(Some(17)), Instant::from_nanos(17));
    assert_eq!(Instant::from_reading(None), Instant::from_nanos(0));
}

#[test]
fn led_groups() {
    let start = Positive::new(4).unwrap();
    let count = Positive::new(3).unwrap();
    let group = LedGroup::new(start, count);
    assert_eq!(group.start_position(), start);
    assert_eq!(group.leds(), &[LedConfiguration::Off; 3]);
    assert_eq!(LedConfiguration::default(), LedConfiguration::Off);

    let group = LedGroup::with_color(rgb(1, 2, 3), start, count);
    assert_eq!(group.start_position(), start);
    assert_eq!(group.leds(), &[LedConfiguration::On { color: rgb(1, 2, 3) }; 3]);
}

#[test]
fn redline_and_engine() {
    let moment = |rpm: i32, max: i32| Moment {
        vehicle_engine_rotation_speed: Some(Fixed::from_int(rpm)),
        vehicle_max_engine_rotation_speed: Some(Fixed::from_int(max)),
        ..Moment::default()
    };
    assert!(moment(9000, 9000).redline_reached());
    assert!(moment(8821, 9000).redline_reached());
    assert!(!moment(8820, 9000).redline_reached(), "Two percent off is too far off");
    assert!(moment(9179, 9000).redline_reached());
    assert!(!moment(9180, 9000).redline_reached());
    assert!(!moment(0, 0).redline_reached());
    assert!(!moment(-9000, -9000).redline_reached());
    assert!(!Moment::default().redline_reached());
    let mut without_max = moment(9000, 9000);
    without_max.vehicle_max_engine_rotation_speed = None;
    assert!(!without_max.redline_reached());

    let mut running = moment(800, 9000);
    assert!(!running.is_engine_running(), "Nothing is known of the starter");
    running.is_starter_on = Some(false);
    assert!(running.is_engine_running());
    running.is_starter_on = Some(true);
    assert!(!running.is_engine_running());
    running.is_starter_on = Some(false);
    running.vehicle_engine_rotation_speed = Some(Fixed::from_thousandths(0));
    assert!(!running.is_engine_running());
    running.vehicle_engine_rotation_speed = Some(Fixed::from_thousandths(1));
    assert!(running.is_engine_running());
    running.vehicle_engine_rotation_speed = None;
    assert!(!running.is_engine_running());

    let flags = RacingFlags::default();
    assert!(!flags.white && !flags.yellow && !flags.blue && !flags.green);
    assert_eq!(Moment::default().flags, None);
}
