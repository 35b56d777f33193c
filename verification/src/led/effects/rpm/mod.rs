//! Effects that react to the RPM of the engine.

pub mod gradient;
pub mod segments;
