pub mod enemy;
pub mod player;
