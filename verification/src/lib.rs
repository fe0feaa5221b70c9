//! Creature, hazard and item catalogue logic for a Pathfinder 2e game-master toolkit:
//! query construction for the catalogue tables, creature variants and level
//! adjustments, creature roles and the filters used to list creatures.
pub mod text;
pub mod db;
pub mod models;
pub mod services;
