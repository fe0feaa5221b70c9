use crate::models::creature::items::spell::Spell;
use vstd::prelude::*;

verus! {

/// How a creature casts its spells.
#[derive(Clone, Debug)]
pub struct SpellCasterEntry {
    pub spell_casting_name: Option<String>,
    pub is_spell_casting_flexible: Option<bool>,
    pub type_of_spell_caster: Option<String>,
    pub spell_casting_dc_mod: Option<i64>,
    pub spell_casting_atk_mod: Option<i64>,
    pub spell_casting_tradition: Option<String>,
}

/// A creature's spells with its single spellcasting entry.
#[derive(Clone, Debug)]
pub struct CreatureSpellCasterData {
    pub spells: Vec<Spell>,
    pub spell_caster_entry: SpellCasterEntry,
}

} // verus!
