//! The GRID Brows: a strip of 18 RGB LEDs.

use vstd::prelude::*;

use super::{led_of, leds_on_device, span_on_device};
use crate::color::Color;
use crate::led::effects::{LedConfiguration, LedGroup};

verus! {

/// The number of LEDs of the device.
pub const LED_COUNT: usize = 18;

/// The number of bytes that the device takes for one LED: red, green, blue
/// and the number of the LED.
pub const COMMAND_BUFFER_SIZE: usize = 4;

/// The command that makes the device show what it was sent.
pub const COMMIT_COMMAND: u8 = 0x01;

/// The bytes that the device takes for its LEDs, four for each LED.
#[derive(Debug, Clone, PartialEq, Eq)]
pub struct BrowsFrame {
    pub buffer: Vec<u8>,
}

/// The byte at `index` of a frame in which every LED is dark.
pub open spec fn spec_dark_byte(index: int) -> u8 {
    if index % 4 == 3 {
        (index / 4) as u8
    } else {
        0
    }
}

/// The byte at `index` of the frame `before` once `group` is applied to it.
///
/// An LED that the group turns on takes the red, green and blue of its
/// colour, one that the group turns off takes black. The LEDs outside the
/// group, and the numbers of the LEDs, stay as they are.
pub open spec fn spec_applied_byte(before: Seq<u8>, group: &LedGroup, index: int) -> u8 {
    match led_of(group, index / 4) {
        Some(LedConfiguration::On { color }) => if index % 4 == 0 {
            color.r
        } else if index % 4 == 1 {
            color.g
        } else if index % 4 == 2 {
            color.b
        } else {
            before[index]
        },
        Some(LedConfiguration::Off) => if index % 4 == 3 {
            before[index]
        } else {
            0
        },
        None => before[index],
    }
}

impl BrowsFrame {
    /// The frame has four bytes for each LED, the last of them the number of
    /// the LED.
    pub open spec fn wf(&self) -> bool {
        &&& self.buffer@.len() == LED_COUNT * COMMAND_BUFFER_SIZE
        &&& forall|index: int|
            0 <= index < LED_COUNT * COMMAND_BUFFER_SIZE && index % 4 == 3 ==> #[trigger] self.buffer@[index]
                == index / 4
    }

    /// The frame in which every LED is dark.
    pub fn new() -> (frame: Self)
        ensures
            frame.wf(),
            forall|index: int|
                0 <= index < LED_COUNT * COMMAND_BUFFER_SIZE ==> frame.buffer@[index]
                    == spec_dark_byte(index),
    {
        let mut buffer: Vec<u8> = Vec::new();
        let mut led: u8 = 0;
        while led < 18
            invariant
                led <= 18,
                buffer@.len() == 4 * led,
                forall|index: int| 0 <= index < 4 * led ==> buffer@[index] == spec_dark_byte(index),
            decreases 18 - led,
        {
            buffer.push(0);
            buffer.push(0);
            buffer.push(0);
            buffer.push(led);
            led += 1;
        }
        let frame = BrowsFrame { buffer };
        assert(frame.buffer@.len() == 72);
        assert forall|index: int| 0 <= index < 72 && index % 4 == 3 implies #[trigger] frame.buffer@[index]
            == index / 4 by {
            assert(frame.buffer@[index] == spec_dark_byte(index));
        }
        frame
    }

    /// Sets the colour of the LED with the number `led`, counted from zero.
    pub fn set_color(&mut self, led: usize, color: Color)
        requires
            old(self).wf(),
            led < LED_COUNT,
        ensures
            final(self).wf(),
            final(self).buffer@ == old(self).buffer@.update(4 * led, color.r).update(
                4 * led + 1,
                color.g,
            ).update(4 * led + 2, color.b),
    {
        self.buffer.set(4 * led, color.r);
        self.buffer.set(4 * led + 1, color.g);
        self.buffer.set(4 * led + 2, color.b);
    }

    /// Turns every LED dark.
    pub fn turn_off(&mut self)
        requires
            old(self).wf(),
        ensures
            final(self).wf(),
            forall|index: int|
                0 <= index < LED_COUNT * COMMAND_BUFFER_SIZE ==> final(self).buffer@[index]
                    == spec_dark_byte(index),
    {
        let mut led: usize = 0;
        while led < LED_COUNT
            invariant
                led <= LED_COUNT,
                self.wf(),
                forall|index: int| 0 <= index < 4 * led ==> self.buffer@[index] == spec_dark_byte(index),
            decreases LED_COUNT - led,
        {
            self.set_color(led, Color { r: 0, g: 0, b: 0, a: 0 });
            led += 1;
        }
    }

    /// Applies an LED group to the frame: the LEDs of the group that lie on
    /// the device take what the group asks of them.
    pub fn apply_led_state(&mut self, led_state: &LedGroup)
        requires
            old(self).wf(),
        ensures
            final(self).wf(),
            forall|index: int|
                0 <= index < LED_COUNT * COMMAND_BUFFER_SIZE ==> final(self).buffer@[index]
                    == spec_applied_byte(old(self).buffer@, led_state, index),
    {
        let (first, count) = span_on_device(led_state, LED_COUNT);
        let mut i: usize = 0;
        while i < count
            invariant
                i <= count,
                count == leds_on_device(led_state, LED_COUNT as nat),
                first == led_state.start_position@ - 1,
                count <= led_state.leds@.len(),
                count > 0 ==> first + count <= LED_COUNT,
                self.wf(),
                old(self).wf(),
                forall|index: int|
                    0 <= index < LED_COUNT * COMMAND_BUFFER_SIZE ==> self.buffer@[index] == (if index
                        / 4 < first + i {
                        spec_applied_byte(old(self).buffer@, led_state, index)
                    } else {
                        old(self).buffer@[index]
                    }),
            decreases count - i,
        {
            let color = match led_state.leds[i] {
                LedConfiguration::On { color } => color,
                LedConfiguration::Off => Color { r: 0, g: 0, b: 0, a: 0 },
            };
            self.set_color(first + i, color);
            i += 1;
        }
    }

    /// The bytes that the device takes for the LED with the number `led`,
    /// counted from zero.
    pub fn led_command(&self, led: usize) -> (command: &[u8])
        requires
            self.wf(),
            led < LED_COUNT,
        ensures
            command@ == self.buffer@.subrange(4 * led, 4 * led + 4),
    {
        vstd::slice::slice_subrange(self.buffer.as_slice(), 4 * led, 4 * led + 4)
    }
}

impl Default for BrowsFrame {
    fn default() -> (frame: Self)
        ensures
            frame.wf(),
    {
        BrowsFrame::new()
    }
}

} // verus!
