use godot::obj::InstanceId;
use vstd::prelude::*;

use crate::movement_controller::{KeyAction, KeyStates};
use crate::node_pool::node_pool_utils::{NodePoolError, PoolableState};
use crate::node_pool::NodePool;

verus! {

/// How many crystals the player's projectile pool is made with.
pub const PROJECTILE_POOL_SIZE: usize = 5;

/// What taking damage did to the one who took it.
#[derive(Clone, Copy, PartialEq, Eq, Structural, Debug)]
pub enum DamageOutcome {
    /// Health went down by `damage`, but not below zero, to `remaining_health`.
    Hit { damage: u32, remaining_health: u32 },
    /// The one hit is gone.
    Destroyed,
}

/// Something that can be hurt.
pub trait Damageable {
    fn take_tamage(&mut self, damage: u32) -> DamageOutcome;
}

/// Health after `damage` is taken from `health`: never below zero.
pub open spec fn health_after(health: u32, damage: u32) -> u32 {
    if damage >= health {
        0
    } else {
        (health - damage) as u32
    }
}

/// Damage never raises health: it falls by the damage, and to zero exactly
/// when the damage is at least the health.
pub proof fn lemma_health_never_rises(health: u32, damage: u32)
    ensures
        health_after(health, damage) <= health,
        health_after(health, damage) == 0 <==> damage >= health,
        damage < health ==> health_after(health, damage) == health - damage,
{
}

/// An action counts as held exactly when its own key state says so; the
/// other actions' states play no part.
pub proof fn lemma_held_reads_own_entry(states: Map<KeyAction, bool>, action: KeyAction)
    ensures
        held(states, action) == (states.contains_key(action) && states[action]),
        forall|other: KeyAction, v: bool|
            other != action ==> #[trigger] held(states.insert(other, v), action) == held(states, action),
{
}

/// The movement direction: x grows with Right and shrinks with Left, y grows
/// with Down and shrinks with Up; no other key moves an axis.
pub proof fn lemma_axes_follow_their_keys(states: Map<KeyAction, bool>)
    ensures
        axis(states, KeyAction::Left, KeyAction::Right) == (if states.contains_key(KeyAction::Right)
            && states[KeyAction::Right] {
            1int
        } else {
            0int
        }) - (if states.contains_key(KeyAction::Left) && states[KeyAction::Left] {
            1int
        } else {
            0int
        }),
        axis(states, KeyAction::Up, KeyAction::Down) == (if states.contains_key(KeyAction::Down)
            && states[KeyAction::Down] {
            1int
        } else {
            0int
        }) - (if states.contains_key(KeyAction::Up) && states[KeyAction::Up] {
            1int
        } else {
            0int
        }),
        forall|v: bool|
            #![trigger states.insert(KeyAction::Up, v)]
            axis(states.insert(KeyAction::Up, v), KeyAction::Left, KeyAction::Right) == axis(
                states,
                KeyAction::Left,
                KeyAction::Right,
            ) && axis(states.insert(KeyAction::Down, v), KeyAction::Left, KeyAction::Right) == axis(
                states,
                KeyAction::Left,
                KeyAction::Right,
            ) && axis(states.insert(KeyAction::Left, v), KeyAction::Up, KeyAction::Down) == axis(
                states,
                KeyAction::Up,
                KeyAction::Down,
            ) && axis(states.insert(KeyAction::Right, v), KeyAction::Up, KeyAction::Down) == axis(
                states,
                KeyAction::Up,
                KeyAction::Down,
            ),
{
}

/// What the player does with its fire key in one frame.
#[derive(Clone, Copy, PartialEq, Eq, Debug)]
pub enum FireCommand {
    /// The fire key is not held.
    Idle,
    /// Fire this waiting projectile.
    Fire(InstanceId),
    /// The fire key is held but the pool has no waiting projectile.
    NoProjectile,
}

/// What touching another body did: the damage the player took, if the body
/// hurts, and the damage the player deals back, if the body can be hurt.
#[derive(Clone, Copy, PartialEq, Eq, Structural, Debug)]
pub struct Contact {
    pub taken: Option<DamageOutcome>,
    pub dealt: Option<u32>,
}

/// The player's health and armor.
pub struct Player {
    pub health: u32,
    pub armor: u32,
}

/// Whether `action` is known to be held.
pub open spec fn held(states: Map<KeyAction, bool>, action: KeyAction) -> bool {
    states.contains_key(action) && states[action]
}

/// +1, 0 or -1: whether the `plus` action is held, less whether `minus` is.
pub open spec fn axis(states: Map<KeyAction, bool>, minus: KeyAction, plus: KeyAction) -> int {
    (if held(states, plus) { 1int } else { 0int }) - (if held(states, minus) { 1int } else { 0int })
}

fn held_now(states: &KeyStates, action: KeyAction) -> (h: bool)
    ensures
        h == held(states@, action),
{
    match states.get(action) {
        Some(true) => true,
        _ => false,
    }
}

impl Player {
    /// A player at full health, 100, with armor 1.
    pub fn init() -> (player: Player)
        ensures
            player.health == 100,
            player.armor == 1,
    {
        Player { health: 100, armor: 1 }
    }

    /// The projectile to fire this frame: when the fire key is held, the
    /// waiting projectile the pool hands out, if it has one.
    pub fn process(&self, key_states: &KeyStates, pool: &NodePool) -> (command: FireCommand)
        ensures
            !(key_states@.contains_key(KeyAction::Fire) && key_states@[KeyAction::Fire]) ==> command
                == FireCommand::Idle,
            (key_states@.contains_key(KeyAction::Fire) && key_states@[KeyAction::Fire]) ==> match pool@ {
                Some(m) => match m.get_node(PoolableState::ActiveAndWaiting) {
                    Ok(node) => command == FireCommand::Fire(node),
                    Err(_) => command == FireCommand::NoProjectile,
                },
                None => command == FireCommand::NoProjectile,
            },
    {
        if !held_now(key_states, KeyAction::Fire) {
            return FireCommand::Idle;
        }
        match pool.get_node(PoolableState::ActiveAndWaiting) {
            Ok(node) => FireCommand::Fire(node),
            Err(_) => FireCommand::NoProjectile,
        }
    }

    /// The direction of this physics step: x grows to the right, y downwards,
    /// each by one step per held key.
    pub fn physics_process(&self, key_states: &KeyStates) -> (direction: (i32, i32))
        ensures
            direction.0 == axis(key_states@, KeyAction::Left, KeyAction::Right),
            direction.1 == axis(key_states@, KeyAction::Up, KeyAction::Down),
            direction.0 == (if key_states@.contains_key(KeyAction::Right) && key_states@[KeyAction::Right] {
                1int
            } else {
                0int
            }) - (if key_states@.contains_key(KeyAction::Left) && key_states@[KeyAction::Left] {
                1int
            } else {
                0int
            }),
            direction.1 == (if key_states@.contains_key(KeyAction::Down) && key_states@[KeyAction::Down] {
                1int
            } else {
                0int
            }) - (if key_states@.contains_key(KeyAction::Up) && key_states@[KeyAction::Up] {
                1int
            } else {
                0int
            }),
    {
        let mut dx: i32 = 0;
        let mut dy: i32 = 0;
        if held_now(key_states, KeyAction::Up) {
            dy = dy - 1;
        }
        if held_now(key_states, KeyAction::Down) {
            dy = dy + 1;
        }
        if held_now(key_states, KeyAction::Left) {
            dx = dx - 1;
        }
        if held_now(key_states, KeyAction::Right) {
            dx = dx + 1;
        }
        (dx, dy)
    }

    /// Another body entered the player's area. `projectile_damage` is the
    /// damage of the body, if it hurts; `damageable` tells whether it can be
    /// hurt. The player first takes the damage, then deals its armor back.
    pub fn on_body_entered(&mut self, projectile_damage: Option<u32>, damageable: bool) -> (contact: Contact)
        ensures
            match projectile_damage {
                Some(d) => final(self).health == health_after(old(self).health, d) && contact.taken == Some(
                    (DamageOutcome::Hit { damage: d, remaining_health: final(self).health }),
                ),
                None => final(self).health == old(self).health && contact.taken is None,
            },
            final(self).armor == old(self).armor,
            contact.dealt == (if damageable { Some(old(self).armor) } else { None::<u32> }),
    {
        let taken = match projectile_damage {
            Some(d) => Some(self.take_tamage(d)),
            None => None,
        };
        let dealt = if damageable { Some(self.armor) } else { None };
        Contact { taken, dealt }
    }
}

impl Damageable for Player {
    /// Health goes down by `damage`, but not below zero.
    fn take_tamage(&mut self, damage: u32) -> (outcome: DamageOutcome)
        ensures
            final(self).health == health_after(old(self).health, damage),
            final(self).armor == old(self).armor,
            outcome == (DamageOutcome::Hit { damage, remaining_health: final(self).health }),
    {
        let mut health = self.health;
        if damage >= health {
            health = 0;
        } else {
            health = health - damage;
        }
        self.health = health;
        DamageOutcome::Hit { damage, remaining_health: health }
    }
}

} // verus!
