pub mod actions;
pub mod agent;
pub mod alerts;
pub mod characters;
pub mod display;
pub mod engine;
pub mod evolution;
pub mod laws;
pub mod permissions;
pub mod persistence;
pub mod rng;
pub mod rules;
pub mod runs;
pub mod screen;
pub mod state;
pub mod time;
pub mod sprites;
