//! The RPM LEDs of the LM-X wheel: four segments of four RGB LEDs each.

use vstd::prelude::*;

use super::{led_of, leds_on_device, span_on_device};
use crate::color::Color;
use crate::led::effects::{LedConfiguration, LedGroup};

verus! {

/// The number of bytes that the device takes for one segment: a report
/// number, the number of the segment, four bytes for each of its LEDs, and
/// three bytes that are not used.
pub const COMMAND_BUFFER_SIZE: usize = 21;

/// The number of segments of the device.
pub const SEGMENT_COUNT: usize = 4;

/// The number of LEDs of a segment.
pub const LEDS_PER_SEGMENT: usize = 4;

/// The number of LEDs of the device.
pub const LED_COUNT: usize = 16;

/// The number of bytes that the device takes for one LED: red, green, blue
/// and brightness.
pub const BYTES_PER_LED: usize = 4;

/// The brightness of an LED that is on.
pub const BRIGHTNESS_ON: u8 = 0x02;

/// One of the LEDs of a segment.
#[derive(Debug, Clone, Copy, PartialEq, Eq)]
pub enum LedNumber {
    One,
    Two,
    Three,
    Four,
}

/// The bytes that the device takes for its LEDs, 21 for each segment.
#[derive(Debug, Clone, PartialEq, Eq)]
pub struct RpmLedsFrame {
    pub leds: Vec<u8>,
}

/// The number by which the device knows the segment `segment`.
pub open spec fn spec_segment_id(segment: int) -> u8 {
    if segment == 0 {
        0x02
    } else if segment == 1 {
        0x03
    } else if segment == 2 {
        0x07
    } else {
        0x08
    }
}

/// The LED whose bytes hold the byte at `index` of a frame, counted from
/// zero over all the segments, or `None` for a byte that belongs to no LED.
pub open spec fn spec_led_of_byte(index: int) -> Option<int> {
    let offset = index % 21;
    if 2 <= offset < 18 {
        Some(4 * (index / 21) + (offset - 2) / 4)
    } else {
        None
    }
}

/// The byte at `index` of a frame in which every LED is dark.
pub open spec fn spec_dark_byte(index: int) -> u8 {
    if index % 21 == 1 {
        spec_segment_id(index / 21)
    } else {
        0
    }
}

/// The byte at `index` of the frame `before` once `group` is applied to it.
///
/// An LED that the group turns on takes the red, green and blue of its
/// colour and the brightness of an LED that is on. One that the group turns
/// off keeps its colour and takes no brightness. Every other byte stays as
/// it is.
pub open spec fn spec_applied_byte(before: Seq<u8>, group: &LedGroup, index: int) -> u8 {
    match spec_led_of_byte(index) {
        None => before[index],
        Some(led) => {
            let part = (index % 21 - 2) % 4;
            match led_of(group, led) {
                Some(LedConfiguration::On { color }) => if part == 0 {
                    color.r
                } else if part == 1 {
                    color.g
                } else if part == 2 {
                    color.b
                } else {
                    BRIGHTNESS_ON
                },
                Some(LedConfiguration::Off) => if part == 3 {
                    0
                } else {
                    before[index]
                },
                None => before[index],
            }
        },
    }
}

impl LedNumber {
    pub open spec fn spec_offset(self) -> usize {
        match self {
            LedNumber::One => 2,
            LedNumber::Two => 6,
            LedNumber::Three => 10,
            LedNumber::Four => 14,
        }
    }

    /// Where the bytes of the LED begin among the bytes of its segment.
    #[verifier::when_used_as_spec(spec_offset)]
    pub fn offset(self) -> (offset: usize)
        ensures
            offset == self.spec_offset(),
    {
        match self {
            LedNumber::One => 2,
            LedNumber::Two => 6,
            LedNumber::Three => 10,
            LedNumber::Four => 14,
        }
    }

    /// The LEDs of a segment, in their order.
    pub fn all() -> (numbers: [LedNumber; 4])
        ensures
            numbers@ == seq![LedNumber::One, LedNumber::Two, LedNumber::Three, LedNumber::Four],
    {
        let numbers = [LedNumber::One, LedNumber::Two, LedNumber::Three, LedNumber::Four];
        assert(numbers@ =~= seq![
            LedNumber::One,
            LedNumber::Two,
            LedNumber::Three,
            LedNumber::Four,
        ]);
        numbers
    }
}

/// The command that makes the device show the segments it was sent.
pub fn commit_command() -> (command: Vec<u8>)
    ensures
        command@.len() == COMMAND_BUFFER_SIZE,
        command@[0] == 0x00,
        command@[1] == 0x09,
        forall|index: int| 2 <= index < COMMAND_BUFFER_SIZE ==> command@[index] == 0,
{
    let mut command: Vec<u8> = Vec::new();
    command.push(0x00);
    command.push(0x09);
    let mut i: usize = 2;
    while i < COMMAND_BUFFER_SIZE
        invariant
            2 <= i <= COMMAND_BUFFER_SIZE,
            command@.len() == i,
            command@[0] == 0x00,
            command@[1] == 0x09,
            forall|index: int| 2 <= index < i ==> command@[index] == 0,
        decreases COMMAND_BUFFER_SIZE - i,
    {
        command.push(0);
        i += 1;
    }
    command
}

impl RpmLedsFrame {
    /// The frame has 21 bytes for each segment, the second of them the
    /// number by which the device knows the segment.
    pub open spec fn wf(&self) -> bool {
        &&& self.leds@.len() == COMMAND_BUFFER_SIZE * SEGMENT_COUNT
        &&& forall|index: int|
            0 <= index < COMMAND_BUFFER_SIZE * SEGMENT_COUNT && index % 21 == 1
                ==> #[trigger] self.leds@[index] == spec_segment_id(index / 21)
    }

    /// Where the bytes of the LED with the number `led`, counted from zero
    /// over all the segments, begin in the frame.
    pub open spec fn spec_led_start(led: int) -> int {
        21 * (led / 4) + 2 + 4 * (led % 4)
    }

    /// The frame in which every LED is dark.
    pub fn new() -> (frame: Self)
        ensures
            frame.wf(),
            forall|index: int|
                0 <= index < COMMAND_BUFFER_SIZE * SEGMENT_COUNT ==> frame.leds@[index]
                    == spec_dark_byte(index),
    {
        let mut leds: Vec<u8> = Vec::new();
        let mut segment: usize = 0;
        while segment < SEGMENT_COUNT
            invariant
                segment <= SEGMENT_COUNT,
                leds@.len() == 21 * segment,
                forall|index: int| 0 <= index < 21 * segment ==> leds@[index] == spec_dark_byte(index),
            decreases SEGMENT_COUNT - segment,
        {
            let segment_id: u8 = if segment == 0 {
                0x02
            } else if segment == 1 {
                0x03
            } else if segment == 2 {
                0x07
            } else {
                0x08
            };
            leds.push(0);
            leds.push(segment_id);
            let mut i: usize = 2;
            while i < COMMAND_BUFFER_SIZE
                invariant
                    2 <= i <= COMMAND_BUFFER_SIZE,
                    segment < SEGMENT_COUNT,
                    leds@.len() == 21 * segment + i,
                    forall|index: int|
                        0 <= index < 21 * segment + i ==> leds@[index] == spec_dark_byte(index),
                decreases COMMAND_BUFFER_SIZE - i,
            {
                leds.push(0);
                i += 1;
            }
            segment += 1;
        }
        let frame = RpmLedsFrame { leds };
        assert(frame.leds@.len() == 84);
        assert forall|index: int| 0 <= index < 84 && index % 21 == 1 implies #[trigger] frame.leds@[index]
            == spec_segment_id(index / 21) by {
            assert(frame.leds@[index] == spec_dark_byte(index));
        }
        frame
    }

    fn led_start(led: usize) -> (start: usize)
        requires
            led < LED_COUNT,
        ensures
            start == Self::spec_led_start(led as int),
            start + 4 <= COMMAND_BUFFER_SIZE * SEGMENT_COUNT,
            spec_led_of_byte(start as int) == Some(led as int),
            spec_led_of_byte(start + 1) == Some(led as int),
            spec_led_of_byte(start + 2) == Some(led as int),
            spec_led_of_byte(start + 3) == Some(led as int),
            start % 21 != 1,
            (start + 1) % 21 != 1,
            (start + 2) % 21 != 1,
            (start + 3) % 21 != 1,
            (start % 21 - 2) % 4 == 0,
    {
        21 * (led / 4) + 2 + 4 * (led % 4)
    }

    /// Sets the colour of the LED with the number `led`, counted from zero
    /// over all the segments.
    pub fn set_color(&mut self, led: usize, color: Color)
        requires
            old(self).wf(),
            led < LED_COUNT,
        ensures
            final(self).wf(),
            final(self).leds@ == old(self).leds@.update(Self::spec_led_start(led as int), color.r).update(
                Self::spec_led_start(led as int) + 1,
                color.g,
            ).update(Self::spec_led_start(led as int) + 2, color.b),
    {
        let start = Self::led_start(led);
        self.leds.set(start, color.r);
        self.leds.set(start + 1, color.g);
        self.leds.set(start + 2, color.b);
    }

    /// Sets the brightness of the LED with the number `led`, counted from
    /// zero over all the segments.
    pub fn set_brightness(&mut self, led: usize, brightness: u8)
        requires
            old(self).wf(),
            led < LED_COUNT,
        ensures
            final(self).wf(),
            final(self).leds@ == old(self).leds@.update(
                Self::spec_led_start(led as int) + 3,
                brightness,
            ),
    {
        let start = Self::led_start(led);
        self.leds.set(start + 3, brightness);
    }

    /// Turns every LED dark: black, and without brightness.
    pub fn turn_off(&mut self)
        requires
            old(self).wf(),
        ensures
            final(self).wf(),
            forall|index: int|
                0 <= index < COMMAND_BUFFER_SIZE * SEGMENT_COUNT ==> final(self).leds@[index] == (
                match spec_led_of_byte(index) {
                    Some(_) => 0,
                    None => old(self).leds@[index],
                }),
    {
        let mut led: usize = 0;
        while led < LED_COUNT
            invariant
                led <= LED_COUNT,
                self.wf(),
                old(self).wf(),
                forall|index: int|
                    0 <= index < COMMAND_BUFFER_SIZE * SEGMENT_COUNT ==> self.leds@[index] == (
                    match spec_led_of_byte(index) {
                        Some(at) => if at < led {
                            0
                        } else {
                            old(self).leds@[index]
                        },
                        None => old(self).leds@[index],
                    }),
            decreases LED_COUNT - led,
        {
            let ghost start = Self::spec_led_start(led as int);
            let start_now = Self::led_start(led);
            self.set_color(led, Color { r: 0, g: 0, b: 0, a: 0 });
            self.set_brightness(led, 0x00);
            proof {
                assert forall|index: int|
                    0 <= index < 84 && index != start && index != start + 1 && index != start + 2
                        && index != start + 3 implies spec_led_of_byte(index) != Some(
                    led as int,
                ) by {
                    if spec_led_of_byte(index) == Some(led as int) {
                        lemma_bytes_of_led(index, led as int);
                    }
                }
            }
            led += 1;
        }
    }

    /// Applies an LED group to the frame: the LEDs of the group that lie on
    /// the device take what the group asks of them.
    pub fn apply_led_state(&mut self, led_state: &LedGroup)
        requires
            old(self).wf(),
        ensures
            final(self).wf(),
            forall|index: int|
                0 <= index < COMMAND_BUFFER_SIZE * SEGMENT_COUNT ==> final(self).leds@[index]
                    == spec_applied_byte(old(self).leds@, led_state, index),
    {
        let (first, count) = span_on_device(led_state, LED_COUNT);
        let mut i: usize = 0;
        while i < count
            invariant
                i <= count,
                count == leds_on_device(led_state, LED_COUNT as nat),
                first == led_state.start_position@ - 1,
                count <= led_state.leds@.len(),
                count > 0 ==> first + count <= LED_COUNT,
                self.wf(),
                old(self).wf(),
                forall|index: int|
                    0 <= index < COMMAND_BUFFER_SIZE * SEGMENT_COUNT ==> self.leds@[index] == (
                    match spec_led_of_byte(index) {
                        Some(at) => if at < first + i {
                            spec_applied_byte(old(self).leds@, led_state, index)
                        } else {
                            old(self).leds@[index]
                        },
                        None => old(self).leds@[index],
                    }),
            decreases count - i,
        {
            let led = first + i;
            let ghost start = Self::spec_led_start(led as int);
            let start_now = Self::led_start(led);
            match led_state.leds[i] {
                LedConfiguration::On { color } => {
                    self.set_color(led, color);
                    self.set_brightness(led, BRIGHTNESS_ON);
                },
                LedConfiguration::Off => {
                    self.set_brightness(led, 0x00);
                },
            }
            proof {
                assert forall|index: int|
                    0 <= index < 84 && index != start && index != start + 1 && index != start + 2
                        && index != start + 3 implies spec_led_of_byte(index) != Some(
                    led as int,
                ) by {
                    if spec_led_of_byte(index) == Some(led as int) {
                        lemma_bytes_of_led(index, led as int);
                    }
                }
            }
            i += 1;
        }
    }

    /// The bytes that the device takes for the segment `segment`.
    pub fn segment_bytes(&self, segment: usize) -> (bytes: &[u8])
        requires
            self.wf(),
            segment < SEGMENT_COUNT,
        ensures
            bytes@ == self.leds@.subrange(21 * segment, 21 * segment + 21),
            bytes@[1] == spec_segment_id(segment as int),
    {
        let bytes = vstd::slice::slice_subrange(
            self.leds.as_slice(),
            21 * segment,
            21 * segment + 21,
        );
        assert(bytes@[1] == self.leds@[21 * segment + 1]);
        bytes
    }
}

/// The bytes of an LED are the four bytes from its start on, and no others.
pub proof fn lemma_bytes_of_led(index: int, led: int)
    requires
        0 <= index < 84,
        0 <= led < 16,
        spec_led_of_byte(index) == Some(led),
    ensures
        RpmLedsFrame::spec_led_start(led) <= index < RpmLedsFrame::spec_led_start(led) + 4,
{
}

impl Default for RpmLedsFrame {
    fn default() -> (frame: Self)
        ensures
            frame.wf(),
    {
        RpmLedsFrame::new()
    }
}

} // verus!
