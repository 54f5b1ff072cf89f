//! Simulation core of a small real-time-strategy game: the world grid and its
//! occupancy, buildings and their timed constructions, the player's selection,
//! the tiered button panels and the resolution of clicks. Drawing is expressed
//! as draw commands that a front end carries out.

pub mod building;
pub mod camera;
pub mod general;
pub mod geometry;
pub mod player;
pub mod sprite;
pub mod texture_path;
pub mod ui;
pub mod unit;
pub mod world;
