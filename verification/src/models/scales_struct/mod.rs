//! The tables of the game's statistics by level, which creatures are measured against.
pub mod creature_scales;
