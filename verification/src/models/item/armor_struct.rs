use crate::models::item::item_struct::Item;
use vstd::prelude::*;

verus! {

/// What an armor adds to its item.
#[derive(Clone, Debug)]
pub struct ArmorData {
    pub id: i64,
    pub bonus_ac: i64,
    pub check_penalty: i64,
    pub dex_cap: i64,
    pub n_of_potency_runes: i64,
    pub n_of_resilient_runes: i64,
    pub speed_penalty: i64,
    pub strength_required: Option<i64>,
    pub property_runes: Vec<String>,
}

/// An armor: an item with armor data.
#[derive(Clone, Debug)]
pub struct Armor {
    pub item_core: Item,
    pub armor_data: ArmorData,
}

} // verus!
