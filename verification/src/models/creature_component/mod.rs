//! The flat creature components, in which a creature has one spellcasting entry.
pub mod creature_combat;
pub mod creature_core;
pub mod creature_extra;
pub mod creature_info;
pub mod creature_spell_caster;
pub mod creature_variant;
