use crate::models::creature_metadata::rarity_enum::RarityEnum;
use crate::models::creature_metadata::size_enum::SizeEnum;
use crate::models::item::item_metadata::type_enum::ItemTypeEnum;
use crate::models::shared::pf_version_enum::GameSystemVersionEnum;
use vstd::prelude::*;

verus! {

/// The filters of the item listing; each one left out keeps every item. The bulk
/// bounds are decimal numbers, kept as the text that goes into the query.
pub struct ItemFieldFilters {
    pub name_filter: Option<String>,
    pub category_filter: Option<Vec<String>>,
    pub source_filter: Option<Vec<String>>,
    pub rarity_filter: Option<Vec<RarityEnum>>,
    pub size_filter: Option<Vec<SizeEnum>>,
    pub type_filter: Option<Vec<ItemTypeEnum>>,
    pub min_hp_filter: Option<i64>,
    pub max_hp_filter: Option<i64>,
    pub min_level_filter: Option<i64>,
    pub max_level_filter: Option<i64>,
    pub min_price_filter: Option<i64>,
    pub max_price_filter: Option<i64>,
    pub min_hardness_filter: Option<i64>,
    pub max_hardness_filter: Option<i64>,
    pub min_bulk_filter: Option<String>,
    pub max_bulk_filter: Option<String>,
    pub min_n_of_uses_filter: Option<i64>,
    pub max_n_of_uses_filter: Option<i64>,
    pub game_system_version: Option<GameSystemVersionEnum>,
    pub trait_whitelist_filter: Option<Vec<String>>,
    pub trait_blacklist_filter: Option<Vec<String>>,
}

/// No filter of the listing is set.
pub open spec fn no_item_filters(f: ItemFieldFilters) -> bool {
    &&& f.name_filter is None
    &&& f.category_filter is None
    &&& f.source_filter is None
    &&& f.rarity_filter is None
    &&& f.size_filter is None
    &&& f.type_filter is None
    &&& f.min_hp_filter is None
    &&& f.max_hp_filter is None
    &&& f.min_level_filter is None
    &&& f.max_level_filter is None
    &&& f.min_price_filter is None
    &&& f.max_price_filter is None
    &&& f.min_hardness_filter is None
    &&& f.max_hardness_filter is None
    &&& f.min_bulk_filter is None
    &&& f.max_bulk_filter is None
    &&& f.min_n_of_uses_filter is None
    &&& f.max_n_of_uses_filter is None
    &&& f.game_system_version is None
    &&& f.trait_whitelist_filter is None
    &&& f.trait_blacklist_filter is None
}

} // verus!
