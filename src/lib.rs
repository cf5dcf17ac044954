//! Gameplay logic of a top-down action game: compass directions, resource
//! pools, hit points, attack windows, the attack dispatcher, the player's
//! movement rules, enemy death handling and drop spawning.
//!
//! Engine-side concerns (scene nodes, signals, input polling, floating-point
//! motion) stay with the host; every decision the host acts upon is made here.

pub mod facing;
pub mod generic_attribute;
pub mod health;
pub mod attack;
pub mod enemy;
pub mod player;
pub mod attack_manager;
pub mod enemy_manager;
