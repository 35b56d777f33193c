//! A reactive LED effect engine for sim racing hardware.
//!
//! A lighting profile describes regions of an RGB LED strip and the
//! conditions under which they light up. From such a profile the engine
//! builds a tree of effects, and for every telemetry snapshot of the simulator
//! it computes which LEDs are on and in which colour.

pub mod color;
pub mod devices;
pub mod fixed;
pub mod led;
pub mod moment;
pub mod positive;
pub mod text;
pub mod time;
