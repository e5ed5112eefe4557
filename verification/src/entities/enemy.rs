use vstd::prelude::*;

use super::player::{DamageOutcome, Damageable};
use crate::projectiles::projectile::Projectile;

verus! {

/// An enemy: it hurts on contact and has no health, so any hit destroys it.
pub struct Enemy {}

impl Enemy {
    pub fn init() -> (enemy: Enemy) {
        Enemy {}
    }
}

impl Projectile for Enemy {
    fn damage(&self) -> (d: u32)
        ensures
            d == 10,
    {
        10
    }
}

impl Damageable for Enemy {
    fn take_tamage(&mut self, damage: u32) -> (outcome: DamageOutcome)
        ensures
            outcome == DamageOutcome::Destroyed,
    {
        DamageOutcome::Destroyed
    }
}

} // verus!
