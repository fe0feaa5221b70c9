use crate::models::item::item_struct::Item;
use vstd::prelude::*;

verus! {

/// What a shield adds to its item.
#[derive(Clone, Debug)]
pub struct ShieldData {
    pub id: i64,
    pub bonus_ac: i64,
    pub n_of_reinforcing_runes: i64,
    pub speed_penalty: i64,
}

/// A shield: an item with shield data.
#[derive(Clone, Debug)]
pub struct Shield {
    pub item_core: Item,
    pub shield_data: ShieldData,
}

} // verus!
