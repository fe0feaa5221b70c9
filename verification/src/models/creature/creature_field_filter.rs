use crate::models::creature::creature_metadata::creature_role::CreatureRoleEnum;
use crate::models::creature::creature_metadata::type_enum::CreatureTypeEnum;
use crate::models::creature_metadata::alignment_enum::AlignmentEnum;
use crate::models::creature_metadata::rarity_enum::RarityEnum;
use crate::models::creature_metadata::size_enum::SizeEnum;
use crate::models::shared::pf_version_enum::GameSystemVersionEnum;
use crate::text::str_le;
use vstd::prelude::*;

verus! {

/// The filters of the creature listing; each one left out keeps every creature.
/// `attack_data_filter` pairs an attack kind (`melee`, `ranged`, `spellcaster`) with
/// whether the creature must (or must not) have it.
#[derive(Clone)]
pub struct CreatureFieldFilters {
    pub name_filter: Option<String>,
    pub source_filter: Option<Vec<String>>,
    pub family_filter: Option<Vec<String>>,
    pub rarity_filter: Option<Vec<RarityEnum>>,
    pub size_filter: Option<Vec<SizeEnum>>,
    pub alignment_filter: Option<Vec<AlignmentEnum>>,
    pub trait_whitelist_filter: Option<Vec<String>>,
    pub trait_blacklist_filter: Option<Vec<String>>,
    pub role_filter: Option<Vec<CreatureRoleEnum>>,
    pub type_filter: Option<Vec<CreatureTypeEnum>>,
    pub role_threshold: Option<i64>,
    pub min_hp_filter: Option<i64>,
    pub max_hp_filter: Option<i64>,
    pub min_level_filter: Option<i64>,
    pub max_level_filter: Option<i64>,
    pub attack_data_filter: Option<Vec<(String, Option<bool>)>>,
    pub game_system_version: Option<GameSystemVersionEnum>,
}

/// The attack kinds of `attack_data_filter` are in the order a map keyed by kind walks
/// them: strictly increasing, so each kind is named once.
pub open spec fn attack_kinds_in_key_order(f: CreatureFieldFilters) -> bool {
    match f.attack_data_filter {
        Some(v) => forall|i: int, j: int|
            0 <= i < j < v@.len() ==> str_le((#[trigger] v@[i]).0@, (#[trigger] v@[j]).0@) && v@[i].0@ != v@[j].0@,
        None => true,
    }
}

/// No filter of the listing is set.
pub open spec fn no_creature_filters(f: CreatureFieldFilters) -> bool {
    &&& f.name_filter is None
    &&& f.source_filter is None
    &&& f.family_filter is None
    &&& f.rarity_filter is None
    &&& f.size_filter is None
    &&& f.alignment_filter is None
    &&& f.trait_whitelist_filter is None
    &&& f.trait_blacklist_filter is None
    &&& f.role_filter is None
    &&& f.type_filter is None
    &&& f.role_threshold is None
    &&& f.min_hp_filter is None
    &&& f.max_hp_filter is None
    &&& f.min_level_filter is None
    &&& f.max_level_filter is None
    &&& f.attack_data_filter is None
    &&& f.game_system_version is None
}

} // verus!
