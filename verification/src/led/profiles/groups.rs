//! Containers that hold other containers.

use vstd::prelude::*;

use super::LedContainer;
use crate::positive::Positive;
use crate::time::Duration;

verus! {

/// How the containers of a group are laid out on the LEDs.
#[derive(Debug, Clone, Copy, PartialEq, Eq, Structural)]
pub enum StackingType {
    /// Each container follows the one before it.
    LeftToRight,
    /// Each container lies at its own position, counted from the start of the
    /// group.
    Layered,
}

impl Default for StackingType {
    fn default() -> (stacking: Self)
        ensures
            stacking == StackingType::Layered,
    {
        StackingType::Layered
    }
}

impl StackingType {
    pub open spec fn spec_from_stack_left_to_right(stack_left_to_right: bool) -> StackingType {
        if stack_left_to_right {
            StackingType::LeftToRight
        } else {
            StackingType::Layered
        }
    }

    /// The stacking that the `StackLeftToRight` switch of a group asks for.
    #[verifier::when_used_as_spec(spec_from_stack_left_to_right)]
    pub fn from_stack_left_to_right(stack_left_to_right: bool) -> (stacking: StackingType)
        ensures
            stacking == Self::spec_from_stack_left_to_right(stack_left_to_right),
    {
        if stack_left_to_right {
            StackingType::LeftToRight
        } else {
            StackingType::Layered
        }
    }
}

/// A group that always shows its containers.
#[derive(Debug, PartialEq, Eq)]
pub struct SimpleGroupContainer {
    pub description: String,
    pub is_enabled: bool,
    pub stacking_type: StackingType,
    pub start_position: Positive,
    pub led_containers: Vec<LedContainer>,
}

/// A group that shows its containers for a while after the car has started.
#[derive(Debug, PartialEq, Eq)]
pub struct TimeLimitedGroupContainer {
    pub description: String,
    pub is_enabled: bool,
    pub duration: Duration,
    pub stacking_type: StackingType,
    pub start_position: Positive,
    pub led_containers: Vec<LedContainer>,
}

/// A formula that a profile gives as the condition of a group. It is kept as
/// text and never evaluated.
#[derive(Debug, Clone, PartialEq, Eq)]
pub struct Formula {
    pub expression: String,
}

/// A group that shows its containers while a formula holds.
#[derive(Debug, PartialEq, Eq)]
pub struct ConditionalGroupContainer {
    pub description: String,
    pub is_enabled: bool,
    pub stacking_type: StackingType,
    pub start_position: Positive,
    pub led_containers: Vec<LedContainer>,
    pub trigger_formula: Formula,
}

} // verus!
