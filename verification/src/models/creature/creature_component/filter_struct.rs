use crate::models::creature::creature_metadata::creature_role::CreatureRoleEnum;
use crate::models::creature::creature_metadata::type_enum::CreatureTypeEnum;
use crate::models::creature_metadata::alignment_enum::AlignmentEnum;
use crate::models::creature_metadata::rarity_enum::RarityEnum;
use crate::models::creature_metadata::size_enum::SizeEnum;
use crate::models::pf_version_enum::PathfinderVersionEnum;
use vstd::prelude::*;

verus! {

/// What an encounter's creatures are drawn from: the wanted values of each field, and
/// the level combinations to fill.
pub struct FilterStruct {
    pub families: Option<Vec<String>>,
    pub traits: Option<Vec<String>>,
    pub rarities: Option<Vec<RarityEnum>>,
    pub sizes: Option<Vec<SizeEnum>>,
    pub alignments: Option<Vec<AlignmentEnum>>,
    pub creature_types: Option<Vec<CreatureTypeEnum>>,
    pub creature_roles: Option<Vec<CreatureRoleEnum>>,
    /// The level combinations, each written once.
    pub lvl_combinations: Vec<String>,
    pub pathfinder_version: PathfinderVersionEnum,
}

} // verus!
