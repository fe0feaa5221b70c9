use crate::models::creature::items::action::Action;
use crate::models::creature::items::skill::Skill;
use std::collections::BTreeMap;
use vstd::prelude::*;

verus! {

/// A creature's six attribute modifiers.
#[derive(Clone, Debug)]
pub struct AbilityScores {
    pub charisma: i8,
    pub constitution: i8,
    pub dexterity: i8,
    pub intelligence: i8,
    pub strength: i8,
    pub wisdom: i8,
}

/// What a creature can do and perceive beyond its core data.
#[derive(Clone, Debug)]
pub struct CreatureExtraData {
    pub actions: Vec<Action>,
    pub skills: Vec<Skill>,
    pub languages: Vec<String>,
    pub senses: Vec<String>,
    pub speeds: BTreeMap<String, i16>,
    pub ability_scores: AbilityScores,
    pub hp_detail: Option<String>,
    pub ac_detail: Option<String>,
    pub language_detail: Option<String>,
    pub perception: i8,
    pub perception_detail: Option<String>,
}

} // verus!
