use crate::models::creature_metadata::rarity_enum::RarityEnum;
use crate::models::creature_metadata::size_enum::SizeEnum;
use crate::models::shared::pf_version_enum::GameSystemVersionEnum;
use vstd::prelude::*;

verus! {

/// Whether a hazard listing keeps simple hazards, complex ones, or both.
#[derive(Clone, Copy, Debug, PartialEq, Eq, Structural, Hash)]
pub enum HazardComplexityEnum {
    Simple,
    Complex,
    Any,
}

impl Default for HazardComplexityEnum {
    fn default() -> (r: Self)
        ensures
            r == HazardComplexityEnum::Any,
    {
        HazardComplexityEnum::Any
    }
}

/// The filters of the hazard listing; each one left out keeps every hazard.
pub struct HazardFieldFilters {
    pub name_filter: Option<String>,
    pub source_filter: Option<Vec<String>>,
    pub rarity_filter: Option<Vec<RarityEnum>>,
    pub size_filter: Option<Vec<SizeEnum>>,
    pub complexity_filter: Option<HazardComplexityEnum>,
    pub min_ac_filter: Option<i64>,
    pub max_ac_filter: Option<i64>,
    pub min_hardness_filter: Option<i64>,
    pub max_hardness_filter: Option<i64>,
    pub min_hp_filter: Option<i64>,
    pub max_hp_filter: Option<i64>,
    pub min_level_filter: Option<i64>,
    pub max_level_filter: Option<i64>,
    pub min_stealth_filter: Option<i64>,
    pub max_stealth_filter: Option<i64>,
    pub min_will_filter: Option<i64>,
    pub max_will_filter: Option<i64>,
    pub min_reflex_filter: Option<i64>,
    pub max_reflex_filter: Option<i64>,
    pub min_fortitude_filter: Option<i64>,
    pub max_fortitude_filter: Option<i64>,
    pub game_system_version: Option<GameSystemVersionEnum>,
    pub trait_whitelist_filter: Option<Vec<String>>,
    pub trait_blacklist_filter: Option<Vec<String>>,
}

/// No filter of the listing is set.
pub open spec fn no_hazard_filters(f: HazardFieldFilters) -> bool {
    &&& f.name_filter is None
    &&& f.source_filter is None
    &&& f.rarity_filter is None
    &&& f.size_filter is None
    &&& f.complexity_filter is None
    &&& f.min_ac_filter is None
    &&& f.max_ac_filter is None
    &&& f.min_hardness_filter is None
    &&& f.max_hardness_filter is None
    &&& f.min_hp_filter is None
    &&& f.max_hp_filter is None
    &&& f.min_level_filter is None
    &&& f.max_level_filter is None
    &&& f.min_stealth_filter is None
    &&& f.max_stealth_filter is None
    &&& f.min_will_filter is None
    &&& f.max_will_filter is None
    &&& f.min_reflex_filter is None
    &&& f.max_reflex_filter is None
    &&& f.min_fortitude_filter is None
    &&& f.max_fortitude_filter is None
    &&& f.game_system_version is None
    &&& f.trait_whitelist_filter is None
    &&& f.trait_blacklist_filter is None
}

} // verus!
