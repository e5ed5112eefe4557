use godot::obj::InstanceId;
use vstd::prelude::*;

use super::projectile::Projectile;
use crate::node_pool::node_pool_utils::PoolableState;
use crate::node_pool::nodes_pool_container::{lemma_moved_keeps_nodes, PoolModel};

verus! {

/// What to do with the crystal's lifetime timer.
#[derive(Clone, Copy, PartialEq, Eq, Structural, Debug)]
pub enum TimerCommand {
    Start,
    Stop,
    Leave,
}

/// A change of state, as signalled to the pool.
#[derive(Clone, Copy, PartialEq, Eq, Structural, Debug)]
pub struct StateChange {
    pub old_state: PoolableState,
    pub new_state: PoolableState,
}

/// What entering a state asks of the engine: the node's visibility and
/// processing, its timer, whether to announce it can be recycled, and the
/// state change to signal, if the state changed.
#[derive(Clone, Copy, PartialEq, Eq, Structural, Debug)]
pub struct StateEffects {
    pub visible: bool,
    pub processing: bool,
    pub timer: TimerCommand,
    pub ready_for_recycle: bool,
    pub state_changed: Option<StateChange>,
}

/// The answer to a request to enter a state.
#[derive(Clone, Copy, PartialEq, Eq, Structural, Debug)]
pub enum ApplyStateOutcome {
    /// The crystal never had a state, so none is applied.
    NeverSet,
    Applied(StateEffects),
}

/// The answer to a request to fire.
#[derive(Clone, Copy, PartialEq, Eq, Structural, Debug)]
pub enum FireOutcome {
    /// The crystal is deactivated and cannot fire.
    Dead,
    /// The crystal is in flight already.
    AlreadyFired,
    /// The crystal was waiting and is now in use.
    Fired(StateEffects),
}

/// The effects of moving from `current` to `target`; `timer_stopped` tells
/// whether the lifetime timer is stopped at that moment.
pub open spec fn effects_of(current: PoolableState, target: PoolableState, timer_stopped: bool) -> StateEffects {
    let state_changed = if current != target {
        Some(StateChange { old_state: current, new_state: target })
    } else {
        None
    };
    match target {
        PoolableState::ActiveAndInUse => StateEffects {
            visible: true,
            processing: true,
            timer: if timer_stopped {
                TimerCommand::Start
            } else {
                TimerCommand::Leave
            },
            ready_for_recycle: false,
            state_changed,
        },
        PoolableState::ActiveAndWaiting => StateEffects {
            visible: true,
            processing: true,
            timer: TimerCommand::Leave,
            ready_for_recycle: false,
            state_changed,
        },
        PoolableState::Deactive => StateEffects {
            visible: false,
            processing: false,
            timer: TimerCommand::Stop,
            ready_for_recycle: true,
            state_changed,
        },
    }
}

/// The pool after it heard of the state change that `effects` signal, if any.
pub open spec fn pool_after_signal(pool: PoolModel, node: InstanceId, effects: StateEffects) -> PoolModel {
    match effects.state_changed {
        Some(change) => pool.after_set_node_state(node, change.old_state, change.new_state),
        None => pool,
    }
}

/// What entering a state asks of the engine depends on that state alone, not
/// on the state left: the crystal is shown and processed unless it enters
/// `Deactive`; the timer starts only on entering use with a stopped timer,
/// stops on deactivation and is left alone otherwise; recycling is announced
/// exactly on deactivation.
pub proof fn lemma_effects_follow_target(current: PoolableState, target: PoolableState, timer_stopped: bool)
    ensures
        effects_of(current, target, timer_stopped).visible == (target != PoolableState::Deactive),
        effects_of(current, target, timer_stopped).processing == (target != PoolableState::Deactive),
        effects_of(current, target, timer_stopped).ready_for_recycle == (target == PoolableState::Deactive),
        effects_of(current, target, timer_stopped).timer == (if target == PoolableState::Deactive {
            TimerCommand::Stop
        } else if target == PoolableState::ActiveAndInUse && timer_stopped {
            TimerCommand::Start
        } else {
            TimerCommand::Leave
        }),
        forall|other: PoolableState|
            #![trigger effects_of(other, target, timer_stopped)]
            effects_of(other, target, timer_stopped).visible == effects_of(current, target, timer_stopped).visible
                && effects_of(other, target, timer_stopped).processing == effects_of(
                current,
                target,
                timer_stopped,
            ).processing && effects_of(other, target, timer_stopped).timer == effects_of(
                current,
                target,
                timer_stopped,
            ).timer && effects_of(other, target, timer_stopped).ready_for_recycle == effects_of(
                current,
                target,
                timer_stopped,
            ).ready_for_recycle,
{
}

/// A crystal signals a state change exactly when it enters a state other
/// than the one it is in, and the signal names both states.
pub proof fn lemma_signal_iff_change(current: PoolableState, target: PoolableState, timer_stopped: bool)
    ensures
        effects_of(current, target, timer_stopped).state_changed is Some <==> current != target,
        current != target ==> effects_of(current, target, timer_stopped).state_changed == Some(
            (StateChange { old_state: current, new_state: target }),
        ),
{
}

/// The pool keeps track of a crystal: if the pool holds the crystal in its
/// current state and hears the change the crystal signals on entering
/// `target`, it then holds it in `target`, with the same nodes as before.
pub proof fn lemma_pool_follows_crystal(
    pool: PoolModel,
    node: InstanceId,
    current: PoolableState,
    target: PoolableState,
    timer_stopped: bool,
)
    requires
        pool.wf(),
        pool.nodes(current).contains(node),
    ensures
        pool_after_signal(pool, node, effects_of(current, target, timer_stopped)).wf(),
        pool_after_signal(pool, node, effects_of(current, target, timer_stopped)).nodes(target).contains(node),
        pool_after_signal(pool, node, effects_of(current, target, timer_stopped)).all_nodes() == pool.all_nodes(),
{
    if current != target {
        lemma_moved_keeps_nodes(pool, node, current, target);
        let after = pool.moved(node, current, target);
        assert(after.nodes(target).last() == node);
        assert(after.nodes(target)[after.nodes(target).len() - 1] == node);
    }
}

/// A crystal projectile and the state it reports to the pool.
pub struct Crystal {
    pub state: Option<PoolableState>,
}

impl Crystal {
    /// A crystal that has no state yet.
    pub fn init() -> (crystal: Crystal)
        ensures
            crystal.state is None,
    {
        Crystal { state: None }
    }

    /// A crystal made for a pool, starting in `init_state`.
    pub fn new_poolable(init_state: PoolableState) -> (crystal: Crystal)
        ensures
            crystal.state == Some(init_state),
    {
        Crystal { state: Some(init_state) }
    }

    /// The state the crystal reports to the pool.
    pub fn get_current_state(&self) -> (state: Option<PoolableState>)
        ensures
            state == self.state,
    {
        self.state
    }

    /// Enters `state`. A crystal that never had a state stays without one.
    pub fn apply_state(&mut self, state: PoolableState, timer_stopped: bool) -> (r: ApplyStateOutcome)
        ensures
            match old(self).state {
                None => r == ApplyStateOutcome::NeverSet && final(self).state is None,
                Some(current) => r == ApplyStateOutcome::Applied(effects_of(current, state, timer_stopped))
                    && final(self).state == Some(state),
            },
    {
        let current = match self.state {
            None => {
                return ApplyStateOutcome::NeverSet;
            },
            Some(current) => current,
        };
        let timer = match state {
            PoolableState::ActiveAndInUse => if timer_stopped {
                TimerCommand::Start
            } else {
                TimerCommand::Leave
            },
            PoolableState::ActiveAndWaiting => TimerCommand::Leave,
            PoolableState::Deactive => TimerCommand::Stop,
        };
        let visible = match state {
            PoolableState::Deactive => false,
            _ => true,
        };
        let ready_for_recycle = match state {
            PoolableState::Deactive => true,
            _ => false,
        };
        let state_changed = if current != state {
            self.state = Some(state);
            Some(StateChange { old_state: current, new_state: state })
        } else {
            None
        };
        ApplyStateOutcome::Applied(
            StateEffects { visible, processing: visible, timer, ready_for_recycle, state_changed },
        )
    }

    /// Fires the crystal: only a waiting crystal goes into use.
    pub fn fire(&mut self, timer_stopped: bool) -> (r: FireOutcome)
        requires
            old(self).state is Some,
        ensures
            match old(self).state {
                Some(PoolableState::Deactive) => r == FireOutcome::Dead && final(self).state == old(self).state,
                Some(PoolableState::ActiveAndInUse) => r == FireOutcome::AlreadyFired
                    && final(self).state == old(self).state,
                _ => r == FireOutcome::Fired(
                    effects_of(PoolableState::ActiveAndWaiting, PoolableState::ActiveAndInUse, timer_stopped),
                ) && final(self).state == Some(PoolableState::ActiveAndInUse),
            },
    {
        match self.state {
            Some(PoolableState::Deactive) => FireOutcome::Dead,
            Some(PoolableState::ActiveAndInUse) => FireOutcome::AlreadyFired,
            _ => match self.apply_state(PoolableState::ActiveAndInUse, timer_stopped) {
                ApplyStateOutcome::Applied(effects) => FireOutcome::Fired(effects),
                ApplyStateOutcome::NeverSet => FireOutcome::Dead,
            },
        }
    }

    /// Once in the scene, the crystal applies the state it already has, or
    /// answers `None` when it has none.
    pub fn ready(&mut self, timer_stopped: bool) -> (r: Option<StateEffects>)
        ensures
            final(self).state == old(self).state,
            match old(self).state {
                None => r is None,
                Some(current) => r == Some(effects_of(current, current, timer_stopped)),
            },
    {
        match self.state {
            Some(state) => match self.apply_state(state, timer_stopped) {
                ApplyStateOutcome::Applied(effects) => Some(effects),
                ApplyStateOutcome::NeverSet => None,
            },
            None => None,
        }
    }

    /// Whether a physics step moves the crystal: only a processing crystal in use moves.
    pub fn physics_process(&self, is_processing: bool) -> (moves: bool)
        requires
            is_processing ==> self.state is Some,
        ensures
            moves == (is_processing && self.state == Some(PoolableState::ActiveAndInUse)),
    {
        if !is_processing {
            return false;
        }
        match self.state {
            Some(PoolableState::ActiveAndInUse) => true,
            _ => false,
        }
    }

    /// The lifetime timer ran out: the crystal deactivates.
    pub fn timeout_recieved(&mut self, timer_stopped: bool) -> (r: ApplyStateOutcome)
        ensures
            match old(self).state {
                None => r == ApplyStateOutcome::NeverSet && final(self).state is None,
                Some(current) => r == ApplyStateOutcome::Applied(
                    effects_of(current, PoolableState::Deactive, timer_stopped),
                ) && final(self).state == Some(PoolableState::Deactive),
            },
    {
        self.apply_state(PoolableState::Deactive, timer_stopped)
    }
}

impl Projectile for Crystal {
    fn damage(&self) -> (d: u32)
        ensures
            d == 20,
    {
        20
    }
}

} // verus!
