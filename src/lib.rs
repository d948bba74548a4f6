//! Deterministic simulation core of a seasonal dungeon crawler: room topology,
//! loot tables, cooperative wall-clearing jobs, boss encounters, duels and scoring.

pub mod address;
pub mod boss;
pub mod duel;
pub mod errors;
pub mod inventory;
pub mod items;
pub mod jobs;
pub mod loot;
pub mod movement;
pub mod player;
pub mod profile;
pub mod presence;
pub mod rng;
pub mod room;
pub mod room_generation;
pub mod run;
pub mod scoring;
pub mod season;
pub mod session;
pub mod vrf_roll;
