//! Game rules of a small 3D shooter: menu navigation, endless-mode waves,
//! enemy selection, boss health, targeting, camera switching, movement input,
//! melee responses and weapon pick-up.

pub mod rng;
pub mod game;
pub mod enemy;
pub mod endless;
pub mod boss;
pub mod menu;
pub mod player;
pub mod weapons;
