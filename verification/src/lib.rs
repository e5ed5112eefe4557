//! Game logic of a small Godot shooter: a pool of reusable projectile nodes
//! grouped by their lifecycle state, the projectile state machine, player
//! health and input handling.
pub mod node_pool;
pub mod movement_controller;
pub mod projectiles;
pub mod entities;
