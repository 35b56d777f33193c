//! Snapshots of the telemetry of a simulator.

use vstd::prelude::*;

use crate::fixed::Fixed;

verus! {

/// The flags that are waved on the track.
#[derive(Debug, Clone, Copy, PartialEq, Eq)]
pub struct RacingFlags {
    pub green: bool,
    pub yellow: bool,
    pub blue: bool,
    pub white: bool,
    pub red: bool,
    pub black: bool,
    pub checkered: bool,
    pub meatball: bool,
    pub black_and_white: bool,
    pub start_ready: bool,
    pub start_set: bool,
    pub start_go: bool,
}

impl Default for RacingFlags {
    fn default() -> (flags: Self)
        ensures
            !flags.green,
            !flags.yellow,
            !flags.blue,
            !flags.white,
            !flags.red,
            !flags.black,
            !flags.checkered,
            !flags.meatball,
            !flags.black_and_white,
            !flags.start_ready,
            !flags.start_set,
            !flags.start_go,
    {
        RacingFlags {
            green: false,
            yellow: false,
            blue: false,
            white: false,
            red: false,
            black: false,
            checkered: false,
            meatball: false,
            black_and_white: false,
            start_ready: false,
            start_set: false,
            start_go: false,
        }
    }
}

/// One snapshot of the telemetry of a simulator. Each value may be missing,
/// on its own, in any snapshot.
#[derive(Debug, Clone, Copy, PartialEq, Eq)]
pub struct Moment {
    /// The flags that are waved.
    pub flags: Option<RacingFlags>,
    /// The rotation speed of the engine, in revolutions per minute.
    pub vehicle_engine_rotation_speed: Option<Fixed>,
    /// The highest rotation speed of the engine, in revolutions per minute.
    pub vehicle_max_engine_rotation_speed: Option<Fixed>,
    /// The gear that is engaged.
    pub vehicle_gear: Option<i8>,
    /// Whether the starter motor runs.
    pub is_starter_on: Option<bool>,
}

impl Default for Moment {
    fn default() -> (moment: Self)
        ensures
            moment == Moment::spec_empty(),
    {
        Moment {
            flags: None,
            vehicle_engine_rotation_speed: None,
            vehicle_max_engine_rotation_speed: None,
            vehicle_gear: None,
            is_starter_on: None,
        }
    }
}

/// Whether `value` is at least `percent` percent of the fraction
/// `whole_num / whole_den`, for a `whole_den` above zero; `value` and
/// `whole_num` are counted in one unit, `percent` in thousandths.
///
/// Of nothing, any value above zero is any percentage; of a whole below
/// zero, a value is the more percent the smaller it is.
pub open spec fn at_least_percent_of(value: int, whole_num: int, whole_den: int, percent: int) -> bool {
    if whole_num > 0 {
        value * whole_den * 100_000 >= percent * whole_num
    } else if whole_num < 0 {
        value * whole_den * 100_000 <= percent * whole_num
    } else {
        value > 0
    }
}

impl Moment {
    /// The snapshot in which every value is missing.
    pub open spec fn spec_empty() -> Moment {
        Moment {
            flags: None,
            vehicle_engine_rotation_speed: None,
            vehicle_max_engine_rotation_speed: None,
            vehicle_gear: None,
            is_starter_on: None,
        }
    }

    /// The engine turns within two percent of its highest rotation speed.
    /// Where either speed is missing the redline is not reached.
    pub open spec fn spec_redline_reached(&self) -> bool {
        match (self.vehicle_engine_rotation_speed, self.vehicle_max_engine_rotation_speed) {
            (Some(rpm), Some(max_rpm)) => {
                let distance = if max_rpm.thousandths >= rpm.thousandths {
                    max_rpm.thousandths - rpm.thousandths
                } else {
                    rpm.thousandths - max_rpm.thousandths
                };
                50 * distance < max_rpm.thousandths
            },
            _ => false,
        }
    }

    /// The engine turns and the starter motor is at rest. Where either value
    /// is missing the engine does not count as running.
    pub open spec fn spec_is_engine_running(&self) -> bool {
        match (self.is_starter_on, self.vehicle_engine_rotation_speed) {
            (Some(is_starting), Some(rpm)) => !is_starting && rpm.thousandths > 0,
            _ => false,
        }
    }

    /// The rotation speed of the engine is at least `percent` percent of its
    /// highest rotation speed.
    pub open spec fn spec_rpm_percentage_at_least(rpm: Fixed, max_rpm: Fixed, percent: Fixed) -> bool {
        at_least_percent_of(
            rpm.thousandths as int,
            max_rpm.thousandths as int,
            1,
            percent.thousandths as int,
        )
    }

    /// The rotation speed of the engine is at least `percent` percent of the
    /// speed at which the redline begins: 98 percent of the highest
    /// rotation speed.
    pub open spec fn spec_redline_percentage_at_least(rpm: Fixed, max_rpm: Fixed, percent: Fixed) -> bool {
        at_least_percent_of(
            rpm.thousandths as int,
            49 * max_rpm.thousandths,
            50,
            percent.thousandths as int,
        )
    }

    /// Whether the engine has reached its redline.
    #[verifier::when_used_as_spec(spec_redline_reached)]
    pub fn redline_reached(&self) -> (reached: bool)
        ensures
            reached == self.spec_redline_reached(),
    {
        let rpm = match self.vehicle_engine_rotation_speed {
            Some(rpm) => rpm,
            None => {
                return false;
            },
        };
        let max_rpm = match self.vehicle_max_engine_rotation_speed {
            Some(max_rpm) => max_rpm,
            None => {
                return false;
            },
        };
        let rpm_wide: i64 = rpm.thousandths as i64;
        let max_wide: i64 = max_rpm.thousandths as i64;
        let distance: i64 = if max_wide >= rpm_wide {
            max_wide - rpm_wide
        } else {
            rpm_wide - max_wide
        };
        50 * distance < max_wide
    }

    /// Whether the engine is running.
    #[verifier::when_used_as_spec(spec_is_engine_running)]
    pub fn is_engine_running(&self) -> (running: bool)
        ensures
            running == self.spec_is_engine_running(),
    {
        let is_starting = match self.is_starter_on {
            Some(is_starting) => is_starting,
            None => {
                return false;
            },
        };
        let rpm = match self.vehicle_engine_rotation_speed {
            Some(rpm) => rpm,
            None => {
                return false;
            },
        };
        !is_starting && rpm.thousandths > 0
    }

    /// Whether `rpm` is at least `percent` percent of `max_rpm`.
    #[verifier::when_used_as_spec(spec_rpm_percentage_at_least)]
    pub fn rpm_percentage_at_least(rpm: Fixed, max_rpm: Fixed, percent: Fixed) -> (reached: bool)
        ensures
            reached == Self::spec_rpm_percentage_at_least(rpm, max_rpm, percent),
    {
        let value: i128 = rpm.thousandths as i128;
        let whole: i128 = max_rpm.thousandths as i128;
        let share: i128 = percent.thousandths as i128;
        assert(-0x8000_0000 <= value < 0x8000_0000 && -0x8000_0000 <= whole < 0x8000_0000
            && -0x8000_0000 <= share < 0x8000_0000);
        assert(-0x4000_0000_0000_0000 <= share * whole <= 0x4000_0000_0000_0000) by (nonlinear_arith)
            requires
                -0x8000_0000 <= whole < 0x8000_0000,
                -0x8000_0000 <= share < 0x8000_0000,
        ;
        if whole > 0 {
            value * 100_000 >= share * whole
        } else if whole < 0 {
            value * 100_000 <= share * whole
        } else {
            value > 0
        }
    }

    /// Whether `rpm` is at least `percent` percent of the speed at which the
    /// redline of an engine with the highest speed `max_rpm` begins.
    #[verifier::when_used_as_spec(spec_redline_percentage_at_least)]
    pub fn redline_percentage_at_least(rpm: Fixed, max_rpm: Fixed, percent: Fixed) -> (reached: bool)
        ensures
            reached == Self::spec_redline_percentage_at_least(rpm, max_rpm, percent),
    {
        let value: i128 = rpm.thousandths as i128;
        let whole: i128 = 49 * (max_rpm.thousandths as i128);
        let share: i128 = percent.thousandths as i128;
        assert(-0x8000_0000 <= value < 0x8000_0000 && -49 * 0x8000_0000 <= whole < 49
            * 0x8000_0000 && -0x8000_0000 <= share < 0x8000_0000);
        assert(-49 * 0x4000_0000_0000_0000 <= share * whole <= 49 * 0x4000_0000_0000_0000)
            by (nonlinear_arith)
            requires
                -49 * 0x8000_0000 <= whole < 49 * 0x8000_0000,
                -0x8000_0000 <= share < 0x8000_0000,
        ;
        if whole > 0 {
            value * 50 * 100_000 >= share * whole
        } else if whole < 0 {
            value * 50 * 100_000 <= share * whole
        } else {
            value > 0
        }
    }
}

} // verus!
