pub mod crystal;
pub mod projectile;
