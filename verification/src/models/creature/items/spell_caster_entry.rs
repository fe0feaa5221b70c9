use crate::models::creature::items::spell::Spell;
use std::collections::BTreeMap;
use vstd::prelude::*;

verus! {

/// How a creature casts a group of spells; the DC and attack modifier may be unknown.
#[derive(Clone, Debug)]
pub struct SpellcasterData {
    pub id: i64,
    pub spell_casting_name: String,
    pub is_spell_casting_flexible: Option<bool>,
    pub type_of_spell_caster: String,
    pub spell_casting_dc_mod: Option<i64>,
    pub spell_casting_atk_mod: Option<i64>,
    pub spell_casting_tradition: String,
}

/// A spellcasting entry: how the spells are cast, and the spells by rank.
#[derive(Clone, Debug)]
pub struct SpellcasterEntry {
    pub spellcaster_data: SpellcasterData,
    pub spells: BTreeMap<i64, Vec<Spell>>,
}

} // verus!
