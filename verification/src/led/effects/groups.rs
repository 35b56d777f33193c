//! Groups of effects, and the conditions under which a group shows them.

use vstd::prelude::*;

use super::blink::{BlinkEffect, EffectCondition, FlagColor};
use super::rpm::gradient::RpmGradientEffect;
use super::{
    all_dark, held_at_usize, led_count_of, leds_of, lemma_leds_of_disabled,
    lemma_leds_of_same_layout, same_layout, shown, shows, BlinkState, LedEffect, LedGroup,
};
use crate::led::profiles::groups::{Formula, StackingType};
use crate::led::profiles::{GroupContainer, LedContainer, LedProfile, SimpleBlinkContainer};
use crate::moment::Moment;
use crate::positive::Positive;
use crate::time::{Duration, Instant};

verus! {

/// Where a group that follows the start of the car is in its cycle.
#[derive(Debug, Clone, Copy, PartialEq, Eq)]
pub enum SimpleConditionstate {
    /// The engine has not been found running yet.
    Waiting,
    /// The engine was found running at `trigger_time`.
    Triggered { trigger_time: Instant },
    /// The time of the group is over, and the engine has not stopped since.
    Expired,
}

impl Default for SimpleConditionstate {
    fn default() -> (state: Self)
        ensures
            state == SimpleConditionstate::Waiting,
    {
        SimpleConditionstate::Waiting
    }
}

/// The condition under which a group hands updates on to its effects.
#[derive(Debug, Clone, PartialEq, Eq)]
pub enum GroupCondition {
    /// Always.
    AlwaysOn,
    /// While the game runs. No snapshot tells whether it does, so this too is
    /// always.
    GameStarted,
    /// For `duration` from the update that finds the engine running.
    CarStarted { duration: Duration, state: SimpleConditionstate },
    /// While a formula holds. Formulas are not evaluated: such a group never
    /// hands an update on.
    Expression { formula: Formula },
}

/// What an update of a group does to the effects of the group.
#[derive(Debug, Clone, Copy, PartialEq, Eq)]
pub enum GroupAction {
    /// Each effect is updated.
    Forward,
    /// Each effect is disabled.
    Disable,
    /// The effects are left as they are.
    Nothing,
}

impl SimpleConditionstate {
    /// The state after an update at the instant `now`.
    ///
    /// A waiting group is triggered by the first update that finds the
    /// engine running. A triggered group expires with the first update at
    /// which `duration` has passed since. An expired group waits again once
    /// the engine is found not to run.
    pub open spec fn spec_next(self, duration: Duration, engine_running: bool, now: Instant) -> SimpleConditionstate {
        match self {
            SimpleConditionstate::Waiting => if engine_running {
                SimpleConditionstate::Triggered { trigger_time: now }
            } else {
                SimpleConditionstate::Waiting
            },
            SimpleConditionstate::Triggered { trigger_time } => if trigger_time.spec_expired_at(
                now,
                duration,
            ) {
                SimpleConditionstate::Expired
            } else {
                self
            },
            SimpleConditionstate::Expired => if !engine_running {
                SimpleConditionstate::Waiting
            } else {
                SimpleConditionstate::Expired
            },
        }
    }

    /// What the update that leaves the state `self` behind does to the
    /// effects: they are updated with the update that triggers the group and
    /// with each one after it until the group expires, and disabled by the
    /// update with which it expires.
    pub open spec fn spec_action(self, duration: Duration, engine_running: bool, now: Instant) -> GroupAction {
        match self {
            SimpleConditionstate::Waiting => if engine_running {
                GroupAction::Forward
            } else {
                GroupAction::Nothing
            },
            SimpleConditionstate::Triggered { trigger_time } => if trigger_time.spec_expired_at(
                now,
                duration,
            ) {
                GroupAction::Disable
            } else {
                GroupAction::Forward
            },
            SimpleConditionstate::Expired => GroupAction::Nothing,
        }
    }

    /// The state after an update at the instant `now`, and what the update
    /// does to the effects.
    pub fn step(self, duration: Duration, engine_running: bool, now: Instant) -> (next: (
        SimpleConditionstate,
        GroupAction,
    ))
        ensures
            next.0 == self.spec_next(duration, engine_running, now),
            next.1 == self.spec_action(duration, engine_running, now),
    {
        match self {
            SimpleConditionstate::Waiting => {
                if engine_running {
                    (SimpleConditionstate::Triggered { trigger_time: now }, GroupAction::Forward)
                } else {
                    (SimpleConditionstate::Waiting, GroupAction::Nothing)
                }
            },
            SimpleConditionstate::Triggered { trigger_time } => {
                if trigger_time.expired_at(now, duration) {
                    (SimpleConditionstate::Expired, GroupAction::Disable)
                } else {
                    (self, GroupAction::Forward)
                }
            },
            SimpleConditionstate::Expired => {
                if !engine_running {
                    (SimpleConditionstate::Waiting, GroupAction::Nothing)
                } else {
                    (SimpleConditionstate::Expired, GroupAction::Nothing)
                }
            },
        }
    }
}

impl GroupCondition {
    /// The condition that a group container asks for, at the start of its
    /// cycle.
    pub open spec fn spec_from(container: &GroupContainer) -> GroupCondition {
        match container {
            GroupContainer::Simple(_) => GroupCondition::AlwaysOn,
            GroupContainer::GameRunning(_) => GroupCondition::GameStarted,
            GroupContainer::CarStarted(c) => GroupCondition::CarStarted {
                duration: c.duration,
                state: SimpleConditionstate::Waiting,
            },
            GroupContainer::Conditional(c) => GroupCondition::Expression {
                formula: c.trigger_formula,
            },
        }
    }

    /// The condition after an update with `moment` at the instant `now`.
    pub open spec fn spec_next(self, moment: &Moment, now: Instant) -> GroupCondition {
        match self {
            GroupCondition::CarStarted { duration, state } => GroupCondition::CarStarted {
                duration,
                state: state.spec_next(duration, moment.spec_is_engine_running(), now),
            },
            _ => self,
        }
    }

    /// What an update with `moment` at the instant `now` does to the effects
    /// of a group with this condition.
    pub open spec fn spec_action(self, moment: &Moment, now: Instant) -> GroupAction {
        match self {
            GroupCondition::AlwaysOn => GroupAction::Forward,
            GroupCondition::GameStarted => GroupAction::Forward,
            GroupCondition::CarStarted { duration, state } => state.spec_action(
                duration,
                moment.spec_is_engine_running(),
                now,
            ),
            GroupCondition::Expression { .. } => GroupAction::Nothing,
        }
    }

    /// Moves the condition on by one update with `moment` at the instant
    /// `now`, and says what the update does to the effects.
    pub fn step(&mut self, moment: &Moment, now: Instant) -> (action: GroupAction)
        ensures
            *final(self) == old(self).spec_next(moment, now),
            action == old(self).spec_action(moment, now),
    {
        match self {
            GroupCondition::AlwaysOn => GroupAction::Forward,
            GroupCondition::GameStarted => GroupAction::Forward,
            GroupCondition::CarStarted { duration, state } => {
                let (next, action) = state.step(*duration, moment.is_engine_running(), now);
                *state = next;
                action
            },
            GroupCondition::Expression { .. } => GroupAction::Nothing,
        }
    }
}

impl From<&GroupContainer> for GroupCondition {
    fn from(value: &GroupContainer) -> (condition: Self) {
        match value {
            GroupContainer::Simple(_) => GroupCondition::AlwaysOn,
            GroupContainer::GameRunning(_) => GroupCondition::GameStarted,
            GroupContainer::CarStarted(c) => GroupCondition::CarStarted {
                duration: c.duration,
                state: SimpleConditionstate::Waiting,
            },
            GroupContainer::Conditional(c) => GroupCondition::Expression {
                formula: Formula { expression: c.trigger_formula.expression.clone() },
            },
        }
    }
}

impl vstd::std_specs::convert::FromSpecImpl<&GroupContainer> for GroupCondition {
    open spec fn obeys_from_spec() -> bool {
        true
    }

    open spec fn from_spec(value: &GroupContainer) -> GroupCondition {
        GroupCondition::spec_from(value)
    }
}

/// A group of effects.
#[derive(Debug, PartialEq, Eq)]
pub struct EffectGroup {
    pub start_position: Positive,
    pub condition: GroupCondition,
    pub states: Vec<LedEffect>,
}

/// Whether an effect is made of the container: it is switched on, and it
/// is a gradient, a flag or a group.
pub open spec fn makes_effect(container: &LedContainer) -> bool {
    &&& container.spec_enabled()
    &&& (container is Rpm || container is Group || container is BlueFlag || container is WhiteFlag
        || container is YellowFlag)
}

/// Where the next effect of a group that stacks from left to right begins,
/// once the first `n` of `placed` are laid out: each effect begins where the
/// one before it ends, and the first at the start of the group.
pub open spec fn cursor_after(group_start: nat, placed: Seq<LedEffect>, n: nat) -> nat
    decreases n,
{
    if n == 0 || n > placed.len() {
        group_start
    } else {
        held_at_usize(
            cursor_after(group_start, placed, (n - 1) as nat) + placed[n - 1].spec_led_count(),
        )
    }
}

/// The position of the effect of `container` in a group that begins at
/// `group_start`, when the effects `placed` precede it.
///
/// Layered, the effect lies at the position of its container, counted from
/// the start of the group. From left to right, it follows the effects before
/// it. Positions stop at the largest `usize`.
pub open spec fn child_start(
    stacking: StackingType,
    group_start: nat,
    container: &LedContainer,
    placed: Seq<LedEffect>,
) -> nat {
    match stacking {
        StackingType::Layered => held_at_usize(
            (group_start + container.spec_start_position()@ - 1) as nat,
        ),
        StackingType::LeftToRight => cursor_after(group_start, placed, placed.len()),
    }
}

/// `effect` is the effect of the flag container `container` for the flag
/// `color`, with its first LED at `start`.
pub open spec fn spec_flag_effect_of(
    color: FlagColor,
    container: &SimpleBlinkContainer,
    start: nat,
    effect: &LedEffect,
) -> bool {
    &&& effect matches LedEffect::Blink(blink)
    &&& blink.wf()
    &&& blink.condition == (EffectCondition::Flag { color })
    &&& blink.container == *container
    &&& blink.on_leds.start_position@ == start
    &&& !blink.enabled
    &&& blink.blink_configuration == BlinkEffect::spec_blink_configuration(container)
}

/// `effect` is the effect of `container` with its first LED at `start`, as
/// it is before its first update.
pub open spec fn spec_effect_of(container: &LedContainer, start: nat, effect: &LedEffect) -> bool
    decreases container,
{
    match container {
        LedContainer::Rpm(c) => {
            &&& effect matches LedEffect::RpmGradient(gradient)
            &&& gradient.wf()
            &&& gradient.container == *c
            &&& gradient.state.start_position@ == start
            &&& gradient.state.all_off()
            &&& gradient.blink_state == BlinkState::NotBlinking
        },
        LedContainer::Group(c) => {
            &&& effect matches LedEffect::Group(group)
            &&& spec_group_of(c, start, group)
        },
        LedContainer::BlueFlag(c) => spec_flag_effect_of(FlagColor::Blue, c, start, effect),
        LedContainer::WhiteFlag(c) => spec_flag_effect_of(FlagColor::White, c, start, effect),
        LedContainer::YellowFlag(c) => spec_flag_effect_of(FlagColor::Yellow, c, start, effect),
        _ => false,
    }
}

/// `group` is the group of `container` with its first LED at `start`, as it
/// is before its first update.
pub open spec fn spec_group_of(container: &GroupContainer, start: nat, group: &EffectGroup) -> bool
    decreases container,
{
    &&& group.start_position@ == start
    &&& group.condition == GroupCondition::spec_from(container)
    &&& match container {
        GroupContainer::Simple(c) => spec_placed(
            c.led_containers@,
            c.led_containers@.len(),
            c.stacking_type,
            start,
            group.states@,
        ),
        GroupContainer::GameRunning(c) => spec_placed(
            c.led_containers@,
            c.led_containers@.len(),
            c.stacking_type,
            start,
            group.states@,
        ),
        GroupContainer::CarStarted(c) => spec_placed(
            c.led_containers@,
            c.led_containers@.len(),
            c.stacking_type,
            start,
            group.states@,
        ),
        GroupContainer::Conditional(c) => spec_placed(
            c.led_containers@,
            c.led_containers@.len(),
            c.stacking_type,
            start,
            group.states@,
        ),
    }
}

/// `states` are the effects of the first `n` of `containers`, laid out in
/// a group that begins at `group_start`: one effect for each container of
/// which an effect is made, in the order of the containers, each at the
/// position that the stacking gives it.
pub open spec fn spec_placed(
    containers: Seq<LedContainer>,
    n: nat,
    stacking: StackingType,
    group_start: nat,
    states: Seq<LedEffect>,
) -> bool
    decreases containers, n,
{
    if n == 0 || n > containers.len() {
        states.len() == 0
    } else if !makes_effect(&containers[n - 1]) {
        spec_placed(containers, (n - 1) as nat, stacking, group_start, states)
    } else {
        &&& states.len() > 0
        &&& spec_placed(containers, (n - 1) as nat, stacking, group_start, states.drop_last())
        &&& spec_effect_of(
            &containers[n - 1],
            child_start(stacking, group_start, &containers[n - 1], states.drop_last()),
            &states.last(),
        )
    }
}

/// Where the next effect begins depends only on the effects before it.
pub proof fn lemma_cursor_after_prefix(group_start: nat, placed: Seq<LedEffect>, longer: Seq<LedEffect>, n: nat)
    requires
        n <= placed.len() <= longer.len(),
        forall|i: int| 0 <= i < n ==> placed[i] == longer[i],
    ensures
        cursor_after(group_start, placed, n) == cursor_after(group_start, longer, n),
    decreases n,
{
    if n > 0 {
        lemma_cursor_after_prefix(group_start, placed, longer, (n - 1) as nat);
    }
}

/// The containers among the first `n` of `containers` of which an effect is
/// made, in their order.
pub open spec fn kept_containers(containers: Seq<LedContainer>, n: nat) -> Seq<LedContainer>
    decreases n,
{
    if n == 0 || n > containers.len() {
        Seq::empty()
    } else if makes_effect(&containers[n - 1]) {
        kept_containers(containers, (n - 1) as nat).push(containers[n - 1])
    } else {
        kept_containers(containers, (n - 1) as nat)
    }
}

/// The effect of a container begins where the container was placed.
pub proof fn lemma_effect_start(container: &LedContainer, start: nat, effect: &LedEffect)
    requires
        spec_effect_of(container, start, effect),
    ensures
        effect.spec_start_led()@ == start,
{
}

/// The effects of a group are those of its containers of which an effect is
/// made, one for one and in their order, each at the position that the
/// stacking gives it behind the effects before it.
pub proof fn lemma_placed_by_index(
    containers: Seq<LedContainer>,
    n: nat,
    stacking: StackingType,
    group_start: nat,
    states: Seq<LedEffect>,
)
    requires
        n <= containers.len(),
        spec_placed(containers, n, stacking, group_start, states),
    ensures
        states.len() == kept_containers(containers, n).len(),
        forall|k: int|
            0 <= k < states.len() ==> spec_effect_of(
                &kept_containers(containers, n)[k],
                child_start(
                    stacking,
                    group_start,
                    &kept_containers(containers, n)[k],
                    states.take(k),
                ),
                #[trigger] &states[k],
            ),
    decreases n,
{
    if n > 0 {
        if makes_effect(&containers[n - 1]) {
            let before = states.drop_last();
            lemma_placed_by_index(containers, (n - 1) as nat, stacking, group_start, before);
            let kept = kept_containers(containers, n);
            assert forall|k: int| 0 <= k < states.len() implies spec_effect_of(
                &kept[k],
                child_start(stacking, group_start, &kept[k], states.take(k)),
                #[trigger] &states[k],
            ) by {
                if k < before.len() {
                    assert(before.take(k) =~= states.take(k));
                    assert(before[k] == states[k]);
                } else {
                    assert(states.take(k) =~= before);
                }
            }
        } else {
            lemma_placed_by_index(containers, (n - 1) as nat, stacking, group_start, states);
        }
    }
}

/// In a layered group each effect lies at the position of its container,
/// counted from the start of the group: the start of the group and the
/// position of the container less one, held at the largest `usize`.
pub proof fn lemma_layered_positions(
    containers: Seq<LedContainer>,
    group_start: nat,
    states: Seq<LedEffect>,
    k: int,
)
    requires
        spec_placed(containers, containers.len(), StackingType::Layered, group_start, states),
        0 <= k < states.len(),
    ensures
        states.len() == kept_containers(containers, containers.len()).len(),
        states[k].spec_start_led()@ == held_at_usize(
            (group_start + kept_containers(
                containers,
                containers.len(),
            )[k].spec_start_position()@ - 1) as nat,
        ),
{
    lemma_placed_by_index(containers, containers.len(), StackingType::Layered, group_start, states);
    let kept = kept_containers(containers, containers.len());
    lemma_effect_start(
        &kept[k],
        child_start(StackingType::Layered, group_start, &kept[k], states.take(k)),
        &states[k],
    );
}

/// In a group that stacks from left to right the first effect lies at the
/// start of the group, and each one after it where the one before it ends:
/// at the position of that one and the number of its LEDs, held at the
/// largest `usize`.
pub proof fn lemma_left_to_right_positions(
    containers: Seq<LedContainer>,
    group_start: nat,
    states: Seq<LedEffect>,
    k: int,
)
    requires
        spec_placed(containers, containers.len(), StackingType::LeftToRight, group_start, states),
        0 <= k < states.len(),
    ensures
        k == 0 ==> states[k].spec_start_led()@ == group_start,
        k > 0 ==> states[k].spec_start_led()@ == held_at_usize(
            states[k - 1].spec_start_led()@ + states[k - 1].spec_led_count(),
        ),
{
    lemma_placed_by_index(
        containers,
        containers.len(),
        StackingType::LeftToRight,
        group_start,
        states,
    );
    let kept = kept_containers(containers, containers.len());
    lemma_effect_start(
        &kept[k],
        child_start(StackingType::LeftToRight, group_start, &kept[k], states.take(k)),
        &states[k],
    );
    if k > 0 {
        lemma_effect_start(
            &kept[k - 1],
            child_start(StackingType::LeftToRight, group_start, &kept[k - 1], states.take(k - 1)),
            &states[k - 1],
        );
        let upto = states.take(k);
        let before = states.take(k - 1);
        lemma_cursor_after_prefix(group_start, before, upto, (k - 1) as nat);
        assert(upto[k - 1] == states[k - 1]);
    }
}

/// The cycle of a group that follows the start of the car.
///
/// The group waits while the engine is not found running. The update that
/// finds it running triggers the group and is handed on to the effects. Each
/// update after that is handed on until `duration` has passed; the first one
/// after that lets the group expire and disables the effects. An expired
/// group hands nothing on, and waits again only once the engine is found
/// not to run.
pub proof fn lemma_car_started_cycle(
    duration: Duration,
    trigger_time: Instant,
    engine_running: bool,
    now: Instant,
)
    ensures
        SimpleConditionstate::Waiting.spec_next(duration, false, now)
            == SimpleConditionstate::Waiting,
        SimpleConditionstate::Waiting.spec_action(duration, false, now) == GroupAction::Nothing,
        SimpleConditionstate::Waiting.spec_next(duration, true, now)
            == (SimpleConditionstate::Triggered { trigger_time: now }),
        SimpleConditionstate::Waiting.spec_action(duration, true, now) == GroupAction::Forward,
        trigger_time.spec_expired_at(now, duration) ==> {
            &&& (SimpleConditionstate::Triggered { trigger_time }).spec_next(
                duration,
                engine_running,
                now,
            ) == SimpleConditionstate::Expired
            &&& (SimpleConditionstate::Triggered { trigger_time }).spec_action(
                duration,
                engine_running,
                now,
            ) == GroupAction::Disable
        },
        !trigger_time.spec_expired_at(now, duration) ==> {
            &&& (SimpleConditionstate::Triggered { trigger_time }).spec_next(
                duration,
                engine_running,
                now,
            ) == (SimpleConditionstate::Triggered { trigger_time })
            &&& (SimpleConditionstate::Triggered { trigger_time }).spec_action(
                duration,
                engine_running,
                now,
            ) == GroupAction::Forward
        },
        SimpleConditionstate::Expired.spec_next(duration, true, now)
            == SimpleConditionstate::Expired,
        SimpleConditionstate::Expired.spec_next(duration, false, now)
            == SimpleConditionstate::Waiting,
        SimpleConditionstate::Expired.spec_action(duration, engine_running, now)
            == GroupAction::Nothing,
{
}

impl EffectGroup {
    /// The update with which a group that follows the start of the car
    /// expires turns every LED of the group off.
    pub proof fn lemma_expiry_is_dark(&self, next: &EffectGroup, moment: &Moment, now: Instant)
        requires
            self.wf(),
            self.spec_updated_at(next, moment, now),
            self.condition matches GroupCondition::CarStarted {
                duration,
                state: SimpleConditionstate::Triggered { trigger_time },
            } && trigger_time.spec_expired_at(now, duration),
        ensures
            next.condition matches GroupCondition::CarStarted {
                state: SimpleConditionstate::Expired,
                ..
            },
            all_dark(next.spec_leds()),
            next.spec_led_count() == self.spec_led_count(),
    {
        lemma_leds_of_disabled(self.states@, next.states@, self.states@.len());
    }

    /// An update or a disabling changes what the LEDs of a group show, never
    /// which LEDs the group controls.
    pub proof fn lemma_layout_is_fixed(&self, next: &EffectGroup, moment: &Moment, now: Instant)
        requires
            self.wf(),
            self.spec_updated_at(next, moment, now) || self.spec_disabled(next),
        ensures
            same_layout(self.spec_leds(), next.spec_leds()),
        decreases self,
    {
        assert forall|i: int| 0 <= i < self.states@.len() implies same_layout(
            (#[trigger] self.states@[i]).spec_leds(),
            next.states@[i].spec_leds(),
        ) by {
            if self.spec_disabled(next) || self.condition.spec_action(moment, now)
                != GroupAction::Nothing {
                self.states@[i].lemma_layout_is_fixed(&next.states@[i], moment, now);
            }
        }
        lemma_leds_of_same_layout(self.states@, next.states@, self.states@.len());
    }

    /// A group that is disabled shows every LED that it controls as off.
    pub proof fn lemma_disabled_is_dark(&self, disabled: &EffectGroup)
        requires
            self.wf(),
            self.spec_disabled(disabled),
        ensures
            all_dark(disabled.spec_leds()),
            disabled.spec_led_count() == self.spec_led_count(),
    {
        lemma_leds_of_disabled(self.states@, disabled.states@, self.states@.len());
    }

    /// The group lies at a position from one on, and each of its effects is
    /// well formed.
    pub open spec fn wf(&self) -> bool
        decreases self,
    {
        &&& self.start_position@ >= 1
        &&& forall|i: int| 0 <= i < self.states@.len() ==> (#[trigger] self.states@[i]).wf()
    }

    /// The LED groups of the effects of the group, in the order of the
    /// effects.
    pub open spec fn spec_leds(&self) -> Seq<LedGroup>
        decreases self,
    {
        leds_of(self.states@, self.states@.len())
    }

    /// The number of LEDs that the group controls: the sum of what its
    /// effects control.
    pub open spec fn spec_led_count(&self) -> nat
        decreases self,
    {
        led_count_of(self.states@, self.states@.len())
    }

    /// `next` is the group after an update with `moment` at the instant
    /// `now`: its condition has moved on, and its effects are updated,
    /// disabled or left alone as the condition says.
    pub open spec fn spec_updated_at(&self, next: &EffectGroup, moment: &Moment, now: Instant) -> bool
        decreases self,
    {
        &&& next.start_position == self.start_position
        &&& next.condition == self.condition.spec_next(moment, now)
        &&& next.states@.len() == self.states@.len()
        &&& match self.condition.spec_action(moment, now) {
            GroupAction::Forward => forall|i: int|
                0 <= i < self.states@.len() ==> (#[trigger] self.states@[i]).spec_updated_at(
                    &next.states@[i],
                    moment,
                    now,
                ),
            GroupAction::Disable => forall|i: int|
                0 <= i < self.states@.len() ==> (#[trigger] self.states@[i]).spec_disabled(
                    &next.states@[i],
                ),
            GroupAction::Nothing => next.states@ == self.states@,
        }
    }

    /// `next` is the group once each of its effects is disabled.
    pub open spec fn spec_disabled(&self, next: &EffectGroup) -> bool
        decreases self,
    {
        &&& next.start_position == self.start_position
        &&& next.condition == self.condition
        &&& next.states@.len() == self.states@.len()
        &&& forall|i: int|
            0 <= i < self.states@.len() ==> (#[trigger] self.states@[i]).spec_disabled(
                &next.states@[i],
            )
    }

    /// The group of all the containers of a profile, layered from the
    /// first LED on, and always shown.
    pub fn root(profile: LedProfile) -> (group: Self)
        ensures
            group.wf(),
            group.start_position@ == 1,
            group.condition == GroupCondition::AlwaysOn,
            spec_placed(
                profile.led_containers@,
                profile.led_containers@.len(),
                StackingType::Layered,
                1,
                group.states@,
            ),
    {
        Self::new_helper(
            GroupCondition::AlwaysOn,
            Positive::one(),
            StackingType::Layered,
            profile.led_containers,
        )
    }

    /// The group of `container`, at the position that the container gives.
    pub fn new(container: GroupContainer) -> (group: Self)
        ensures
            group.wf(),
            spec_group_of(&container, container.spec_start_position()@, &group),
    {
        let start_position = container.start_position();
        Self::with_start_position(container, start_position)
    }

    /// The group of `container`, with its first LED at `start_position`.
    pub fn with_start_position(container: GroupContainer, start_position: Positive) -> (group: Self)
        ensures
            group.wf(),
            spec_group_of(&container, start_position@, &group),
        decreases container,
    {
        let condition = GroupCondition::from(&container);
        let (stacking_type, containers) = match container {
            GroupContainer::Simple(c) => (c.stacking_type, c.led_containers),
            GroupContainer::GameRunning(c) => (c.stacking_type, c.led_containers),
            GroupContainer::CarStarted(c) => (c.stacking_type, c.led_containers),
            GroupContainer::Conditional(c) => (c.stacking_type, c.led_containers),
        };
        Self::new_helper(condition, start_position, stacking_type, containers)
    }

    /// The effect of `container` with its first LED at `start_position`, or
    /// `None` for a container of which no effect is made.
    fn create_led_effect(container: LedContainer, start_position: Positive) -> (effect: Option<LedEffect>)
        ensures
            effect is Some <==> (container is Rpm || container is Group || container is BlueFlag
                || container is WhiteFlag || container is YellowFlag),
            effect matches Some(made) ==> made.wf() && spec_effect_of(
                &container,
                start_position@,
                &made,
            ),
        decreases container,
    {
        match container {
            LedContainer::Rpm(c) => Some(
                LedEffect::RpmGradient(RpmGradientEffect::with_start_position(c, start_position)),
            ),
            LedContainer::RpmSegments(_) => None,
            LedContainer::RedlineReached(_) => None,
            LedContainer::SpeedLimiterAnimation(_) => None,
            LedContainer::Group(c) => Some(
                LedEffect::Group(Self::with_start_position(c, start_position)),
            ),
            LedContainer::BlueFlag(c) => Some(
                LedEffect::Blink(BlinkEffect::flag(FlagColor::Blue, c, start_position)),
            ),
            LedContainer::WhiteFlag(c) => Some(
                LedEffect::Blink(BlinkEffect::flag(FlagColor::White, c, start_position)),
            ),
            LedContainer::YellowFlag(c) => Some(
                LedEffect::Blink(BlinkEffect::flag(FlagColor::Yellow, c, start_position)),
            ),
            LedContainer::Unknown { .. } => None,
        }
    }

    fn new_helper(
        condition: GroupCondition,
        group_start_position: Positive,
        stacking_type: StackingType,
        containers: Vec<LedContainer>,
    ) -> (group: Self)
        ensures
            group.wf(),
            group.start_position == group_start_position,
            group.condition == condition,
            spec_placed(
                containers@,
                containers@.len(),
                stacking_type,
                group_start_position@,
                group.states@,
            ),
        decreases containers@,
    {
        let group_start = group_start_position.get();
        let mut states: Vec<LedEffect> = Vec::new();
        let mut start_position = group_start_position;
        let ghost all = containers@;

        for container in it: containers.into_iter()
            invariant
                it.seq() == all,
                group_start == group_start_position@,
                group_start >= 1,
                spec_placed(all, it.index() as nat, stacking_type, group_start as nat, states@),
                forall|j: int| 0 <= j < states@.len() ==> (#[trigger] states@[j]).wf(),
                stacking_type == StackingType::LeftToRight ==> start_position@ == cursor_after(
                    group_start as nat,
                    states@,
                    states@.len(),
                ),
        {
            let ghost index = it.index();
            let ghost placed = states@;
            assert(container == all[index]);
            // If the container is defined in the profile, but not enabled, skip
            // it. No need to waste memory on effects that shouldn't modify the
            // LED states.
            if container.enabled() {
                match stacking_type {
                    StackingType::Layered => {
                        start_position =
                        group_start_position.saturating_add(container.start_position().get() - 1);
                    },
                    StackingType::LeftToRight => {},
                }
                proof {
                    assert(decreases_to!(all => all[index]));
                }
                match Self::create_led_effect(container, start_position) {
                    Some(state) => {
                        assert(start_position@ == child_start(
                            stacking_type,
                            group_start as nat,
                            &container,
                            placed,
                        ));
                        match stacking_type {
                            StackingType::LeftToRight => {
                                start_position = start_position.saturating_add(state.led_count());
                            },
                            StackingType::Layered => {},
                        }
                        states.push(state);
                        proof {
                            assert(states@.drop_last() =~= placed);
                            lemma_cursor_after_prefix(
                                group_start as nat,
                                placed,
                                states@,
                                placed.len(),
                            );
                        }
                    },
                    None => {},
                }
            }
        }
        Self { condition, start_position: group_start_position, states }
    }

    /// Updates each effect of the group.
    fn update_states_at(&mut self, moment: &Moment, now: Instant)
        requires
            old(self).wf(),
        ensures
            final(self).wf(),
            final(self).start_position == old(self).start_position,
            final(self).condition == old(self).condition,
            final(self).states@.len() == old(self).states@.len(),
            forall|i: int|
                0 <= i < old(self).states@.len() ==> (#[trigger] old(self).states@[i]).spec_updated_at(
                    &final(self).states@[i],
                    moment,
                    now,
                ),
        decreases old(self).states, 0nat,
    {
        let count = self.states.len();
        let mut i: usize = 0;
        while i < count
            invariant
                i <= count,
                count == self.states@.len(),
                count == old(self).states@.len(),
                old(self).wf(),
                self.start_position == old(self).start_position,
                self.condition == old(self).condition,
                forall|j: int| 0 <= j < count ==> (#[trigger] self.states@[j]).wf(),
                forall|j: int|
                    0 <= j < i ==> (#[trigger] old(self).states@[j]).spec_updated_at(
                        &self.states@[j],
                        moment,
                        now,
                    ),
                forall|j: int| i <= j < count ==> self.states@[j] == old(self).states@[j],
            decreases count - i,
        {
            proof {
                assert(self.states@[i as int] == old(self).states@[i as int]);
                assert(decreases_to!(old(self).states => old(self).states[i as int]));
                assert(self.states@[i as int].wf());
            }
            let state = &mut self.states[i];
            state.update_at(moment, now);
            i += 1;
        }
    }

    /// Update the group with the latest snapshot of the simulator, given
    /// the reading `now` of the clock.
    pub fn update_at(&mut self, moment: &Moment, now: Instant)
        requires
            old(self).wf(),
        ensures
            final(self).wf(),
            old(self).spec_updated_at(final(self), moment, now),
        decreases old(self).states, 1nat,
    {
        let action = self.condition.step(moment, now);
        match action {
            GroupAction::Forward => self.update_states_at(moment, now),
            GroupAction::Disable => self.disable(),
            GroupAction::Nothing => {},
        }
    }

    /// Update the group with the latest snapshot of the simulator, at the
    /// current reading of the wall clock.
    pub fn update(&mut self, moment: &Moment)
        requires
            old(self).wf(),
        ensures
            final(self).wf(),
            exists|now: Instant| #[trigger] old(self).spec_updated_at(final(self), moment, now),
    {
        let now = Instant::now();
        self.update_at(moment, now);
    }

    /// Disable each effect of the group.
    pub fn disable(&mut self)
        requires
            old(self).wf(),
        ensures
            final(self).wf(),
            old(self).spec_disabled(final(self)),
        decreases old(self).states, 0nat,
    {
        let count = self.states.len();
        let mut i: usize = 0;
        while i < count
            invariant
                i <= count,
                count == self.states@.len(),
                count == old(self).states@.len(),
                old(self).wf(),
                self.start_position == old(self).start_position,
                self.condition == old(self).condition,
                forall|j: int| 0 <= j < count ==> (#[trigger] self.states@[j]).wf(),
                forall|j: int|
                    0 <= j < i ==> (#[trigger] old(self).states@[j]).spec_disabled(
                        &self.states@[j],
                    ),
                forall|j: int| i <= j < count ==> self.states@[j] == old(self).states@[j],
            decreases count - i,
        {
            proof {
                assert(self.states@[i as int] == old(self).states@[i as int]);
                assert(decreases_to!(old(self).states => old(self).states[i as int]));
                assert(self.states@[i as int].wf());
            }
            let state = &mut self.states[i];
            state.disable();
            i += 1;
        }
    }

    /// The position of the first LED of the group.
    pub fn start_led(&self) -> (position: Positive)
        ensures
            position == self.start_position,
            position@ >= 1,
    {
        let position = self.start_position;
        let _ = position.get();
        position
    }

    /// The description of the group: a group has none.
    pub fn description(&self) -> (description: &str)
        ensures
            description@ == Seq::<char>::empty(),
    {
        let description: &str = "";
        proof {
            reveal_strlit("");
        }
        description
    }

    /// The number of LEDs that the group controls, held at the largest
    /// `usize`.
    pub fn led_count(&self) -> (count: usize)
        ensures
            count == held_at_usize(self.spec_led_count()),
        decreases self,
    {
        let mut total: usize = 0;
        let mut i: usize = 0;
        while i < self.states.len()
            invariant
                i <= self.states@.len(),
                total == held_at_usize(led_count_of(self.states@, i as nat)),
            decreases self.states@.len() - i,
        {
            proof {
                assert(decreases_to!(*self => self.states));
                assert(decreases_to!(self.states => self.states[i as int]));
            }
            let count = self.states[i].led_count();
            total = if count > usize::MAX - total {
                usize::MAX
            } else {
                total + count
            };
            i += 1;
        }
        total
    }

    /// Adds the LED groups of the group to `groups`.
    pub fn collect_leds<'a>(&'a self, groups: &mut Vec<&'a LedGroup>)
        ensures
            shows(final(groups)@, shown(old(groups)@) + self.spec_leds()),
        decreases self,
    {
        let mut i: usize = 0;
        while i < self.states.len()
            invariant
                i <= self.states@.len(),
                shows(groups@, shown(old(groups)@) + leds_of(self.states@, i as nat)),
            decreases self.states@.len() - i,
        {
            proof {
                assert(decreases_to!(*self => self.states));
                assert(decreases_to!(self.states => self.states[i as int]));
            }
            let ghost before = shown(groups@);
            self.states[i].collect_leds(groups);
            proof {
                assert(before =~= shown(old(groups)@) + leds_of(self.states@, i as nat));
                assert(shown(old(groups)@) + leds_of(self.states@, (i + 1) as nat) =~= before
                    + self.states@[i as int].spec_leds());
            }
            i += 1;
        }
    }

    /// The LED groups of the group, in the order of its effects.
    pub fn leds(&self) -> (groups: Vec<&LedGroup>)
        ensures
            shows(groups@, self.spec_leds()),
    {
        let mut groups: Vec<&LedGroup> = Vec::new();
        self.collect_leds(&mut groups);
        assert(shown(Seq::<&LedGroup>::empty()) + self.spec_leds() =~= self.spec_leds());
        groups
    }
}

} // verus!
