use crate::models::creature_metadata::rarity_enum::RarityEnum;
use crate::models::creature_metadata::size_enum::SizeEnum;
use vstd::prelude::*;

verus! {

/// The columns the hazard listing can be sorted by.
#[derive(Clone, Copy, Debug, PartialEq, Eq, Structural, Hash)]
pub enum HazardSortEnum {
    Id,
    Name,
    Ac,
    Hardness,
    Hp,
    Complexity,
    Level,
    Trait,
    Rarity,
    Size,
    Source,
    Fortitude,
    Reflex,
    Will,
    Stealth,
}

/// The column filters of the encounter builder's hazard query; an empty list or a
/// missing bound keeps every value.
#[derive(Clone, Debug)]
pub struct HazardTableFieldsFilter {
    pub supported_version: Vec<String>,
    pub source_filter: Vec<String>,
    pub size_filter: Vec<SizeEnum>,
    pub rarity_filter: Vec<RarityEnum>,
    pub min_ac: Option<i64>,
    pub max_ac: Option<i64>,
    pub min_hardness: Option<i64>,
    pub max_hardness: Option<i64>,
    pub min_hp: Option<i64>,
    pub max_hp: Option<i64>,
    pub min_fortitude: Option<i64>,
    pub max_fortitude: Option<i64>,
    pub min_reflex: Option<i64>,
    pub max_reflex: Option<i64>,
    pub min_will: Option<i64>,
    pub max_will: Option<i64>,
    pub min_stealth: Option<i64>,
    pub max_stealth: Option<i64>,
}

/// The encounter builder's hazard query: column filters and trait lists.
#[derive(Clone, Debug)]
pub struct HazardFilterQuery {
    pub hazard_table_fields_filter: HazardTableFieldsFilter,
    pub trait_whitelist_filter: Vec<String>,
    pub trait_blacklist_filter: Vec<String>,
}

} // verus!
