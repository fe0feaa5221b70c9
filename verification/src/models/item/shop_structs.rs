use crate::models::creature_metadata::rarity_enum::RarityEnum;
use crate::models::creature_metadata::size_enum::SizeEnum;
use crate::models::item::item_metadata::type_enum::ItemTypeEnum;
use vstd::prelude::*;

verus! {

/// The columns the item listing can be sorted by.
#[derive(Clone, Copy, Debug, PartialEq, Eq, Structural, Hash)]
pub enum ItemSortEnum {
    Id,
    Name,
    Level,
    Trait,
    Type,
    Rarity,
    Source,
}

/// The column filters of the shop generator; an empty list keeps every value.
#[derive(Clone, Debug)]
pub struct ItemTableFieldsFilter {
    pub supported_version: Vec<String>,
    pub size_filter: Vec<SizeEnum>,
    pub type_filter: Vec<ItemTypeEnum>,
    pub category_filter: Vec<String>,
    pub rarity_filter: Vec<RarityEnum>,
    pub source_filter: Vec<String>,
    pub min_level: i16,
    pub max_level: i16,
}

/// The shop generator's query: column filters, trait lists, and how many items of
/// each kind to draw.
#[derive(Clone, Debug)]
pub struct ShopFilterQuery {
    pub item_table_fields_filter: ItemTableFieldsFilter,
    pub trait_whitelist_filter: Vec<String>,
    pub trait_blacklist_filter: Vec<String>,
    pub n_of_equipment: i64,
    pub n_of_consumables: i64,
    pub n_of_weapons: i64,
    pub n_of_armors: i64,
    pub n_of_shields: i64,
}

} // verus!
