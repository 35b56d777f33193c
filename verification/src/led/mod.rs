//! LED effects and the lighting profiles that configure them.

pub mod effects;
pub mod profiles;
