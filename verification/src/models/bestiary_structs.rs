use crate::models::creature::creature_metadata::creature_role::CreatureRoleEnum;
use crate::models::creature::creature_metadata::type_enum::CreatureTypeEnum;
use crate::models::creature_metadata::alignment_enum::AlignmentEnum;
use crate::models::creature_metadata::rarity_enum::RarityEnum;
use crate::models::creature_metadata::size_enum::SizeEnum;
use crate::models::creature_sort_enums::OrderEnum;
use crate::models::routers_validator_structs::PaginatedRequest;
use vstd::prelude::*;

verus! {

/// The columns the creature listing can be sorted by.
#[derive(Clone, Copy, Debug, PartialEq, Eq, Structural, Hash)]
pub enum CreatureSortEnum {
    Id,
    Name,
    Level,
    Trait,
    Size,
    Type,
    Hp,
    Rarity,
    Family,
    Alignment,
    Attacks,
    Roles,
}

impl Default for CreatureSortEnum {
    fn default() -> (r: Self)
        ensures
            r == CreatureSortEnum::Name,
    {
        CreatureSortEnum::Name
    }
}

/// How to sort the creature listing; each part has a default.
#[derive(Clone, Copy, Debug, PartialEq, Eq, Structural, Hash)]
pub struct BestiarySortData {
    pub sort_by: Option<CreatureSortEnum>,
    pub order_by: Option<OrderEnum>,
}

/// A page of the creature listing and its order.
#[derive(Clone, Copy, Debug, PartialEq, Eq, Structural, Hash)]
pub struct BestiaryPaginatedRequest {
    pub paginated_request: PaginatedRequest,
    pub bestiary_sort_data: BestiarySortData,
}

/// The column filters of the encounter builder's creature query; an empty list
/// keeps every value.
#[derive(Clone, Debug)]
pub struct CreatureTableFieldsFilter {
    pub source_filter: Vec<String>,
    pub family_filter: Vec<String>,
    pub alignment_filter: Vec<AlignmentEnum>,
    pub size_filter: Vec<SizeEnum>,
    pub rarity_filter: Vec<RarityEnum>,
    pub type_filter: Vec<CreatureTypeEnum>,
    pub role_filter: Vec<CreatureRoleEnum>,
    pub role_lower_threshold: u8,
    pub role_upper_threshold: u8,
    pub is_melee_filter: Vec<bool>,
    pub is_ranged_filter: Vec<bool>,
    pub is_spellcaster_filter: Vec<bool>,
    pub supported_version: Vec<String>,
    pub level_filter: Vec<i64>,
}

impl CreatureTableFieldsFilter {
    /// The lowest role percentage a creature needs by default: 50.
    pub fn default_lower_threshold() -> (r: u8)
        ensures
            r == 50,
    {
        50
    }

    /// The highest role percentage by default: 100.
    pub fn default_upper_threshold() -> (r: u8)
        ensures
            r == 100,
    {
        100
    }
}

/// The encounter builder's creature query: column filters and trait lists.
#[derive(Clone, Debug)]
pub struct BestiaryFilterQuery {
    pub creature_table_fields_filter: CreatureTableFieldsFilter,
    pub trait_whitelist_filter: Vec<String>,
    pub trait_blacklist_filter: Vec<String>,
}

} // verus!
