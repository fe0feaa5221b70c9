use crate::models::creature::items::spell::Spell;
use vstd::prelude::*;

verus! {

/// How a creature casts a group of spells: its tradition, DC and attack modifier.
#[derive(Clone, Debug)]
pub struct SpellcasterData {
    pub id: i64,
    pub spellcasting_name: String,
    pub is_spellcasting_flexible: Option<bool>,
    pub type_of_spellcaster: String,
    pub spellcasting_dc_mod: i64,
    pub spellcasting_atk_mod: i64,
    pub spellcasting_tradition: String,
    pub heighten_level: i64,
}

/// A spellcasting entry: how the spells are cast, and the spells.
#[derive(Clone, Debug)]
pub struct SpellcasterEntry {
    pub spellcaster_data: SpellcasterData,
    pub spells: Vec<Spell>,
}

} // verus!
