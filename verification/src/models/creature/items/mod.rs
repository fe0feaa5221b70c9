pub mod action;
pub mod skill;
pub mod spell;
pub mod spell_caster_entry;
pub mod spellcaster_entry;
