use crate::models::creature_metadata::rarity_enum::RarityEnum;
use vstd::prelude::*;

verus! {

/// An action a creature (or hazard) can take.
#[derive(Clone, Debug)]
pub struct Action {
    pub id: i64,
    pub name: String,
    pub action_type: String,
    pub n_of_actions: Option<i64>,
    pub category: Option<String>,
    pub description: String,
    pub license: String,
    pub remaster: bool,
    pub source: String,
    pub slug: Option<String>,
    pub rarity: RarityEnum,
    pub creature_id: i64,
}

} // verus!
