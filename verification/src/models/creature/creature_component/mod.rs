pub mod creature_combat;
pub mod creature_core;
pub mod creature_extra;
pub mod filter_struct;
pub mod creature_spell_caster;
pub mod creature_spellcaster;
pub mod creature_variant;
