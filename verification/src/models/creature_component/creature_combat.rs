use crate::models::item::weapon_struct::Weapon;
use std::collections::BTreeMap;
use vstd::prelude::*;

verus! {

/// A creature's saving throw modifiers, with their notes.
#[derive(Clone, Debug)]
pub struct SavingThrows {
    pub fortitude: i8,
    pub reflex: i8,
    pub will: i8,
    pub fortitude_detail: Option<String>,
    pub reflex_detail: Option<String>,
    pub will_detail: Option<String>,
}

/// How a creature fights and defends itself.
#[derive(Clone, Debug)]
pub struct CreatureCombatData {
    pub weapons: Vec<Weapon>,
    pub resistances: BTreeMap<String, i16>,
    pub immunities: Vec<String>,
    pub weaknesses: BTreeMap<String, i16>,
    pub saving_throws: SavingThrows,
    pub ac: i8,
}

} // verus!
