//! The stages of a tick. Each stage is one pass over all joystick instances,
//! and each instance is touched through its own data only.

use crate::action::{dispatch_action, drag_transition, hook_called, VirtualJoystickAction};
use crate::behavior::VirtualJoystickBehavior;
use crate::components::{
    JoystickGeometry, VirtualJoystick, VirtualJoystickID, VirtualJoystickState,
};
use crate::events::{event_bodies, fire_events, EventBody, VirtualJoystickEvent};
use crate::input::{
    input_reduced, lists_pressed, pressed_samples, reduce_input, TouchSample,
};
use crate::placement::{place_visuals, placed};
use bevy::input::touch::Touches;
use bevy::math::Vec2;
use vstd::prelude::*;

verus! {

impl<S: VirtualJoystickID, B: VirtualJoystickBehavior, A: VirtualJoystickAction<S>> VirtualJoystick<
    S,
    B,
    A,
> {
    /// This instance with `state` in place of its state.
    pub open spec fn with_state(self, state: Option<VirtualJoystickState>) -> Self {
        VirtualJoystick { state, ..self }
    }

    /// This instance with an idle state where it had none.
    pub open spec fn state_supplied(self) -> Self {
        match self.state {
            Some(_) => self,
            None => self.with_state(Some(VirtualJoystickState::idle())),
        }
    }

    /// This instance after the input reduction of one tick.
    pub open spec fn input_reduced(self, samples: Seq<TouchSample>, cursor: Option<Vec2>) -> Self {
        match self.state {
            Some(state) => self.with_state(
                Some(
                    input_reduced(
                        state,
                        self.pressed,
                        self.geometry.position,
                        self.geometry.rect,
                        samples,
                        cursor,
                    ),
                ),
            ),
            None => self,
        }
    }

    /// Whether `after` is this instance once its behavior was asked at the
    /// delta stage: the state is one that the hook may return for the state
    /// before, and nothing else differs. An instance without a state stays.
    pub open spec fn delta_stage_done(self, after: Self) -> bool {
        match self.state {
            Some(state) => after.state matches Some(next) && after == self.with_state(Some(next))
                && call_ensures(
                B::update_at_delta_stage,
                (&self.node.behavior, state, &self.geometry),
                next,
            ),
            None => after == self,
        }
    }

    /// Whether `after` is this instance once its behavior was asked at the
    /// constraint stage.
    pub open spec fn constraint_stage_done(self, after: Self) -> bool {
        match self.state {
            Some(state) => after.state matches Some(next) && after == self.with_state(Some(next))
                && call_ensures(
                B::update_at_constraint_stage,
                (&self.node.behavior, state, &self.geometry),
                next,
            ),
            None => after == self,
        }
    }

    /// Whether `after` is this instance once its behavior was asked for its
    /// general update.
    pub open spec fn behavior_updated(self, after: Self) -> bool {
        match self.state {
            Some(state) => after.state matches Some(next) && after == self.with_state(Some(next))
                && call_ensures(B::update, (&self.node.behavior, state, &self.geometry), next),
            None => after == self,
        }
    }

    /// Whether the action of this instance was dispatched for its state:
    /// where the state shows a transition, the hook of that transition was
    /// called with a clone of the instance's id and with the state. For an
    /// instance without a state, or whose state shows no transition, there
    /// is nothing to call.
    pub open spec fn action_dispatched(self) -> bool {
        match self.state {
            Some(state) => exists|id: S|
                cloned(self.node.id, id) && #[trigger] hook_called(
                    &self.node.action,
                    drag_transition(state),
                    id,
                    state,
                ),
            None => true,
        }
    }

    /// Whether `after` is this instance one tick later, given the pressed
    /// touches in `samples` and the cursor. The stages follow one another in
    /// a fixed order: input reduction, the behavior's delta stage, its
    /// constraint stage and its general update, the dispatch of the action,
    /// and the placement of the visuals. An instance without a state stays.
    pub open spec fn ticked(self, after: Self, samples: Seq<TouchSample>, cursor: Option<Vec2>) -> bool {
        match self.state {
            Some(state) => exists|
                measured: VirtualJoystickState,
                constrained: VirtualJoystickState,
                updated: VirtualJoystickState,
            |
                {
                    &&& #[trigger] behaved(
                        &self.node.behavior,
                        input_reduced(
                            state,
                            self.pressed,
                            self.geometry.position,
                            self.geometry.rect,
                            samples,
                            cursor,
                        ),
                        &self.geometry,
                        measured,
                        constrained,
                        updated,
                    )
                    &&& self.with_state(Some(updated)).action_dispatched()
                    &&& after == self.with_state(Some(updated)).visuals_placed()
                },
            None => after == self,
        }
    }

    /// This instance after the placement of its visuals.
    pub open spec fn visuals_placed(self) -> Self {
        match self.state {
            Some(state) => VirtualJoystick {
                placement: placed(state, self.geometry, self.placement),
                ..self
            },
            None => self,
        }
    }
}

/// Whether a behavior asked at its three stages in turn, first with `state`,
/// may have returned `measured`, then `constrained`, then `updated`.
pub open spec fn behaved<B: VirtualJoystickBehavior>(
    behavior: &B,
    state: VirtualJoystickState,
    geometry: &JoystickGeometry,
    measured: VirtualJoystickState,
    constrained: VirtualJoystickState,
    updated: VirtualJoystickState,
) -> bool {
    &&& call_ensures(B::update_at_delta_stage, (behavior, state, geometry), measured)
    &&& call_ensures(B::update_at_constraint_stage, (behavior, measured, geometry), constrained)
    &&& call_ensures(B::update, (behavior, constrained, geometry), updated)
}

/// Gives an idle state to every instance that has none.
pub fn update_missing_state<S: VirtualJoystickID, B: VirtualJoystickBehavior, A: VirtualJoystickAction<S>>(
    joysticks: &mut Vec<VirtualJoystick<S, B, A>>,
)
    ensures
        final(joysticks)@.len() == old(joysticks)@.len(),
        forall|i: int|
            0 <= i < old(joysticks)@.len() ==> #[trigger] final(joysticks)@[i] == old(
                joysticks,
            )@[i].state_supplied(),
{
    let mut i: usize = 0;
    while i < joysticks.len()
        invariant
            i <= joysticks@.len(),
            joysticks@.len() == old(joysticks)@.len(),
            forall|k: int|
                0 <= k < i ==> #[trigger] joysticks@[k] == old(joysticks)@[k].state_supplied(),
            forall|k: int| i <= k < joysticks@.len() ==> #[trigger] joysticks@[k] == old(joysticks)@[k],
        decreases joysticks@.len() - i,
    {
        if joysticks[i].state.is_none() {
            joysticks[i].state = Some(VirtualJoystickState::default());
        }
        i = i + 1;
    }
}

/// Reduces the input of one tick for every instance that has a state, from
/// the pressed touches listed in `samples` and the cursor.
pub fn update_input_from<S: VirtualJoystickID, B: VirtualJoystickBehavior, A: VirtualJoystickAction<S>>(
    joysticks: &mut Vec<VirtualJoystick<S, B, A>>,
    samples: &Vec<TouchSample>,
    cursor: Option<Vec2>,
)
    ensures
        final(joysticks)@.len() == old(joysticks)@.len(),
        forall|i: int|
            0 <= i < old(joysticks)@.len() ==> #[trigger] final(joysticks)@[i] == old(
                joysticks,
            )@[i].input_reduced(samples@, cursor),
{
    let mut i: usize = 0;
    while i < joysticks.len()
        invariant
            i <= joysticks@.len(),
            joysticks@.len() == old(joysticks)@.len(),
            forall|k: int|
                0 <= k < i ==> #[trigger] joysticks@[k] == old(joysticks)@[k].input_reduced(
                    samples@,
                    cursor,
                ),
            forall|k: int| i <= k < joysticks@.len() ==> #[trigger] joysticks@[k] == old(joysticks)@[k],
        decreases joysticks@.len() - i,
    {
        match joysticks[i].state {
            Some(state) => {
                let next = reduce_input(
                    state,
                    joysticks[i].pressed,
                    joysticks[i].geometry.position,
                    &joysticks[i].geometry.rect,
                    samples,
                    cursor,
                );
                joysticks[i].state = Some(next);
            },
            None => {},
        }
        i = i + 1;
    }
}

/// Reduces the input of one tick for every instance that has a state, from
/// the touches that the host holds as pressed and the cursor. The order in
/// which the touches are considered is the order in which the host lists
/// them, which it does not fix.
pub fn update_input<S: VirtualJoystickID, B: VirtualJoystickBehavior, A: VirtualJoystickAction<S>>(
    joysticks: &mut Vec<VirtualJoystick<S, B, A>>,
    touches: &Touches,
    cursor: Option<Vec2>,
)
    ensures
        final(joysticks)@.len() == old(joysticks)@.len(),
        exists|samples: Seq<TouchSample>|
            lists_pressed(samples, *touches) && forall|i: int|
                0 <= i < old(joysticks)@.len() ==> #[trigger] final(joysticks)@[i] == old(
                    joysticks,
                )@[i].input_reduced(samples, cursor),
{
    let samples = pressed_samples(touches);
    update_input_from(joysticks, &samples, cursor);
    assert(lists_pressed(samples@, *touches));
}

/// Asks the behavior of every instance that has a state at the delta stage.
pub fn update_behavior_knob_delta<S: VirtualJoystickID, B: VirtualJoystickBehavior, A: VirtualJoystickAction<S>>(
    joysticks: &mut Vec<VirtualJoystick<S, B, A>>,
)
    ensures
        final(joysticks)@.len() == old(joysticks)@.len(),
        forall|i: int|
            0 <= i < old(joysticks)@.len() ==> old(joysticks)@[i].delta_stage_done(
                #[trigger] final(joysticks)@[i],
            ),
{
    let mut i: usize = 0;
    while i < joysticks.len()
        invariant
            i <= joysticks@.len(),
            joysticks@.len() == old(joysticks)@.len(),
            forall|k: int|
                0 <= k < i ==> old(joysticks)@[k].delta_stage_done(#[trigger] joysticks@[k]),
            forall|k: int| i <= k < joysticks@.len() ==> #[trigger] joysticks@[k] == old(joysticks)@[k],
        decreases joysticks@.len() - i,
    {
        match joysticks[i].state {
            Some(state) => {
                let next = joysticks[i].node.behavior.update_at_delta_stage(
                    state,
                    &joysticks[i].geometry,
                );
                joysticks[i].state = Some(next);
            },
            None => {},
        }
        i = i + 1;
    }
}

/// Asks the behavior of every instance that has a state at the constraint
/// stage.
pub fn update_behavior_constraints<S: VirtualJoystickID, B: VirtualJoystickBehavior, A: VirtualJoystickAction<S>>(
    joysticks: &mut Vec<VirtualJoystick<S, B, A>>,
)
    ensures
        final(joysticks)@.len() == old(joysticks)@.len(),
        forall|i: int|
            0 <= i < old(joysticks)@.len() ==> old(joysticks)@[i].constraint_stage_done(
                #[trigger] final(joysticks)@[i],
            ),
{
    let mut i: usize = 0;
    while i < joysticks.len()
        invariant
            i <= joysticks@.len(),
            joysticks@.len() == old(joysticks)@.len(),
            forall|k: int|
                0 <= k < i ==> old(joysticks)@[k].constraint_stage_done(#[trigger] joysticks@[k]),
            forall|k: int| i <= k < joysticks@.len() ==> #[trigger] joysticks@[k] == old(joysticks)@[k],
        decreases joysticks@.len() - i,
    {
        match joysticks[i].state {
            Some(state) => {
                let next = joysticks[i].node.behavior.update_at_constraint_stage(
                    state,
                    &joysticks[i].geometry,
                );
                joysticks[i].state = Some(next);
            },
            None => {},
        }
        i = i + 1;
    }
}

/// Asks the behavior of every instance that has a state for its general
/// update.
pub fn update_behavior<S: VirtualJoystickID, B: VirtualJoystickBehavior, A: VirtualJoystickAction<S>>(
    joysticks: &mut Vec<VirtualJoystick<S, B, A>>,
)
    ensures
        final(joysticks)@.len() == old(joysticks)@.len(),
        forall|i: int|
            0 <= i < old(joysticks)@.len() ==> old(joysticks)@[i].behavior_updated(
                #[trigger] final(joysticks)@[i],
            ),
{
    let mut i: usize = 0;
    while i < joysticks.len()
        invariant
            i <= joysticks@.len(),
            joysticks@.len() == old(joysticks)@.len(),
            forall|k: int|
                0 <= k < i ==> old(joysticks)@[k].behavior_updated(#[trigger] joysticks@[k]),
            forall|k: int| i <= k < joysticks@.len() ==> #[trigger] joysticks@[k] == old(joysticks)@[k],
        decreases joysticks@.len() - i,
    {
        match joysticks[i].state {
            Some(state) => {
                let next = joysticks[i].node.behavior.update(state, &joysticks[i].geometry);
                joysticks[i].state = Some(next);
            },
            None => {},
        }
        i = i + 1;
    }
}

/// Dispatches the action of every instance whose state shows a transition:
/// the hook of the transition is called once, with a clone of the instance's
/// id and with its state. No instance changes.
pub fn update_action<S: VirtualJoystickID, B: VirtualJoystickBehavior, A: VirtualJoystickAction<S>>(
    joysticks: &Vec<VirtualJoystick<S, B, A>>,
)
    ensures
        forall|i: int| 0 <= i < joysticks@.len() ==> (#[trigger] joysticks@[i]).action_dispatched(),
{
    let mut i: usize = 0;
    while i < joysticks.len()
        invariant
            i <= joysticks@.len(),
            forall|k: int| 0 <= k < i ==> (#[trigger] joysticks@[k]).action_dispatched(),
        decreases joysticks@.len() - i,
    {
        match joysticks[i].state {
            Some(state) => {
                let id = joysticks[i].node.id.clone();
                dispatch_action(&joysticks[i].node.action, id, state);
                assert(hook_called(&joysticks@[i as int].node.action, drag_transition(state), id, state));
            },
            None => {},
        }
        i = i + 1;
    }
}

/// What the events of `joystick`, the instance at `index`, say, each paired
/// with `index`. An instance without a state has no events.
pub open spec fn instance_events<S: VirtualJoystickID, B: VirtualJoystickBehavior, A: VirtualJoystickAction<S>>(
    joystick: VirtualJoystick<S, B, A>,
    index: int,
) -> Seq<(int, EventBody)> {
    match joystick.state {
        Some(state) => Seq::new(
            event_bodies(state).len(),
            |k: int| (index, event_bodies(state)[k]),
        ),
        None => Seq::empty(),
    }
}

/// What the events of the first `n` instances say, instance after instance,
/// each paired with the index of its instance.
pub open spec fn emitted<S: VirtualJoystickID, B: VirtualJoystickBehavior, A: VirtualJoystickAction<S>>(
    joysticks: Seq<VirtualJoystick<S, B, A>>,
    n: int,
) -> Seq<(int, EventBody)>
    decreases n,
{
    if n <= 0 {
        Seq::empty()
    } else {
        emitted(joysticks, n - 1) + instance_events(joysticks[n - 1], n - 1)
    }
}

/// Whether `queue` ends, from index `from` on, with what the first `n` of
/// `joysticks` emit: the events say what `emitted` gives, in order, and each
/// carries a clone of the id of its instance.
pub open spec fn events_emitted<S: VirtualJoystickID, B: VirtualJoystickBehavior, A: VirtualJoystickAction<S>>(
    queue: Seq<VirtualJoystickEvent<S>>,
    from: int,
    joysticks: Seq<VirtualJoystick<S, B, A>>,
    n: int,
) -> bool {
    &&& queue.len() == from + emitted(joysticks, n).len()
    &&& forall|k: int|
        #![trigger queue[k]]
        from <= k < queue.len() ==> {
            &&& 0 <= emitted(joysticks, n)[k - from].0 < n
            &&& cloned(joysticks[emitted(joysticks, n)[k - from].0].node.id, queue[k].id)
            &&& queue[k].body() == emitted(joysticks, n)[k - from].1
        }
}

/// Appends the events of every instance that has a state to `send_values`,
/// instance after instance.
pub fn update_fire_events<S: VirtualJoystickID, B: VirtualJoystickBehavior, A: VirtualJoystickAction<S>>(
    joysticks: &Vec<VirtualJoystick<S, B, A>>,
    send_values: &mut Vec<VirtualJoystickEvent<S>>,
)
    ensures
        forall|k: int|
            0 <= k < old(send_values)@.len() ==> #[trigger] final(send_values)@[k] == old(
                send_values,
            )@[k],
        events_emitted(
            final(send_values)@,
            old(send_values)@.len() as int,
            joysticks@,
            joysticks@.len() as int,
        ),
{
    let ghost before = send_values@;
    let mut i: usize = 0;
    while i < joysticks.len()
        invariant
            i <= joysticks@.len(),
            forall|k: int| 0 <= k < before.len() ==> #[trigger] send_values@[k] == before[k],
            events_emitted(send_values@, before.len() as int, joysticks@, i as int),
        decreases joysticks@.len() - i,
    {
        let ghost queued = send_values@;
        match joysticks[i].state {
            Some(state) => {
                fire_events(&joysticks[i].node.id, &state, send_values);
            },
            None => {},
        }
        proof {
            let told = emitted(joysticks@, i as int);
            let tells = instance_events(joysticks@[i as int], i as int);
            let all = emitted(joysticks@, i + 1);
            let from = before.len() as int;
            assert(all == told + tells);
            assert(send_values@.len() == queued.len() + tells.len());
            assert forall|k: int|
                #![trigger send_values@[k]]
                from <= k < send_values@.len() implies {
                &&& 0 <= all[k - from].0 < i + 1
                &&& cloned(joysticks@[all[k - from].0].node.id, send_values@[k].id)
                &&& send_values@[k].body() == all[k - from].1
            } by {
                if k < queued.len() {
                    assert(send_values@[k] == queued[k]);
                    assert(all[k - from] == told[k - from]);
                } else {
                    let at = k - queued.len();
                    assert(all[k - from] == tells[at]);
                    assert(tells[at].0 == i);
                }
            }
        }
        i = i + 1;
    }
}

/// Places the visuals of every instance that has a state.
pub fn update_ui<S: VirtualJoystickID, B: VirtualJoystickBehavior, A: VirtualJoystickAction<S>>(
    joysticks: &mut Vec<VirtualJoystick<S, B, A>>,
)
    ensures
        final(joysticks)@.len() == old(joysticks)@.len(),
        forall|i: int|
            0 <= i < old(joysticks)@.len() ==> #[trigger] final(joysticks)@[i] == old(
                joysticks,
            )@[i].visuals_placed(),
{
    let mut i: usize = 0;
    while i < joysticks.len()
        invariant
            i <= joysticks@.len(),
            joysticks@.len() == old(joysticks)@.len(),
            forall|k: int|
                0 <= k < i ==> #[trigger] joysticks@[k] == old(joysticks)@[k].visuals_placed(),
            forall|k: int| i <= k < joysticks@.len() ==> #[trigger] joysticks@[k] == old(joysticks)@[k],
        decreases joysticks@.len() - i,
    {
        match joysticks[i].state {
            Some(state) => {
                let next = place_visuals(&state, &joysticks[i].geometry, joysticks[i].placement);
                joysticks[i].placement = next;
            },
            None => {},
        }
        i = i + 1;
    }
}

/// Runs one tick over all instances, from the pressed touches listed in
/// `samples` and the cursor: every stage in its turn, each as one pass over
/// all instances. The events of the tick are appended to `send_values`.
pub fn run_tick_from<S: VirtualJoystickID, B: VirtualJoystickBehavior, A: VirtualJoystickAction<S>>(
    joysticks: &mut Vec<VirtualJoystick<S, B, A>>,
    samples: &Vec<TouchSample>,
    cursor: Option<Vec2>,
    send_values: &mut Vec<VirtualJoystickEvent<S>>,
)
    ensures
        final(joysticks)@.len() == old(joysticks)@.len(),
        forall|i: int|
            0 <= i < old(joysticks)@.len() ==> old(joysticks)@[i].ticked(
                #[trigger] final(joysticks)@[i],
                samples@,
                cursor,
            ),
        forall|k: int|
            0 <= k < old(send_values)@.len() ==> #[trigger] final(send_values)@[k] == old(
                send_values,
            )@[k],
        events_emitted(
            final(send_values)@,
            old(send_values)@.len() as int,
            final(joysticks)@,
            final(joysticks)@.len() as int,
        ),
{
    update_input_from(joysticks, samples, cursor);
    update_behavior_knob_delta(joysticks);
    let ghost measured = joysticks@;
    update_behavior_constraints(joysticks);
    let ghost constrained = joysticks@;
    update_behavior(joysticks);
    let ghost updated = joysticks@;
    update_action(joysticks);
    update_fire_events(joysticks, send_values);
    update_ui(joysticks);
    proof {
        assert forall|i: int| 0 <= i < old(joysticks)@.len() implies old(joysticks)@[i].ticked(
            #[trigger] joysticks@[i],
            samples@,
            cursor,
        ) by {
            let start = old(joysticks)@[i];
            assert(start.input_reduced(samples@, cursor).delta_stage_done(measured[i]));
            assert(measured[i].constraint_stage_done(constrained[i]));
            assert(constrained[i].behavior_updated(updated[i]));
            assert(updated[i].action_dispatched());
            assert(joysticks@[i] == updated[i].visuals_placed());
            match start.state {
                Some(state) => {
                    assert(behaved(
                        &start.node.behavior,
                        input_reduced(
                            state,
                            start.pressed,
                            start.geometry.position,
                            start.geometry.rect,
                            samples@,
                            cursor,
                        ),
                        &start.geometry,
                        measured[i].state->Some_0,
                        constrained[i].state->Some_0,
                        updated[i].state->Some_0,
                    ));
                },
                None => {},
            }
        }
        lemma_events_follow_states(
            send_values@,
            old(send_values)@.len() as int,
            updated,
            joysticks@,
            updated.len() as int,
        );
    }
}

/// Runs one tick over all instances, from the touches that the host holds
/// as pressed and the cursor. The order in which the touches are considered
/// is the order in which the host lists them, which it does not fix.
pub fn run_tick<S: VirtualJoystickID, B: VirtualJoystickBehavior, A: VirtualJoystickAction<S>>(
    joysticks: &mut Vec<VirtualJoystick<S, B, A>>,
    touches: &Touches,
    cursor: Option<Vec2>,
    send_values: &mut Vec<VirtualJoystickEvent<S>>,
)
    ensures
        final(joysticks)@.len() == old(joysticks)@.len(),
        exists|samples: Seq<TouchSample>|
            lists_pressed(samples, *touches) && forall|i: int|
                0 <= i < old(joysticks)@.len() ==> old(joysticks)@[i].ticked(
                    #[trigger] final(joysticks)@[i],
                    samples,
                    cursor,
                ),
        forall|k: int|
            0 <= k < old(send_values)@.len() ==> #[trigger] final(send_values)@[k] == old(
                send_values,
            )@[k],
        events_emitted(
            final(send_values)@,
            old(send_values)@.len() as int,
            final(joysticks)@,
            final(joysticks)@.len() as int,
        ),
{
    let samples = pressed_samples(touches);
    run_tick_from(joysticks, &samples, cursor, send_values);
    assert(lists_pressed(samples@, *touches));
}

/// Instances that agree in id and state emit the same events.
pub proof fn lemma_events_follow_states<S: VirtualJoystickID, B: VirtualJoystickBehavior, A: VirtualJoystickAction<S>>(
    queue: Seq<VirtualJoystickEvent<S>>,
    from: int,
    first: Seq<VirtualJoystick<S, B, A>>,
    second: Seq<VirtualJoystick<S, B, A>>,
    n: int,
)
    requires
        0 <= n <= first.len(),
        first.len() == second.len(),
        forall|i: int|
            0 <= i < n ==> (#[trigger] first[i]).node.id == second[i].node.id && first[i].state
                == second[i].state,
        events_emitted(queue, from, first, n),
    ensures
        emitted(first, n) == emitted(second, n),
        events_emitted(queue, from, second, n),
{
    lemma_emitted_follows_states(first, second, n);
    assert forall|k: int|
        #![trigger queue[k]]
        from <= k < queue.len() implies {
        &&& 0 <= emitted(second, n)[k - from].0 < n
        &&& cloned(second[emitted(second, n)[k - from].0].node.id, queue[k].id)
        &&& queue[k].body() == emitted(second, n)[k - from].1
    } by {
        let owner = emitted(first, n)[k - from].0;
        assert(first[owner].node.id == second[owner].node.id);
    }
}

proof fn lemma_emitted_follows_states<S: VirtualJoystickID, B: VirtualJoystickBehavior, A: VirtualJoystickAction<S>>(
    first: Seq<VirtualJoystick<S, B, A>>,
    second: Seq<VirtualJoystick<S, B, A>>,
    n: int,
)
    requires
        0 <= n <= first.len(),
        first.len() == second.len(),
        forall|i: int| 0 <= i < n ==> (#[trigger] first[i]).state == second[i].state,
    ensures
        emitted(first, n) == emitted(second, n),
    decreases n,
{
    if n > 0 {
        lemma_emitted_follows_states(first, second, n - 1);
        assert(first[n - 1].state == second[n - 1].state);
        assert(instance_events(first[n - 1], n - 1) =~= instance_events(second[n - 1], n - 1));
    }
}

} // verus!
