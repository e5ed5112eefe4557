use vstd::prelude::*;

verus! {

/// Something that hurts what it hits.
pub trait Projectile {
    /// The damage dealt on a hit; none unless the projectile says otherwise.
    fn damage(&self) -> (d: u32)
        default_ensures
            d == 0,
    {
        0
    }
}

/// Lifecycle of a projectile.
#[derive(Clone, Copy, PartialEq, Eq, Structural, Debug)]
pub enum ProjectileState {
    Dead,
    AliveNotFired,
    AliveFired,
}

} // verus!
