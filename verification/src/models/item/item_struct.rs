use crate::models::creature_metadata::rarity_enum::RarityEnum;
use crate::models::creature_metadata::size_enum::SizeEnum;
use crate::models::item::item_metadata::type_enum::ItemTypeEnum;
use vstd::prelude::*;

verus! {

/// An item: what every weapon, armor, shield, consumable and piece of equipment has.
#[derive(Clone, Debug)]
pub struct Item {
    pub id: i64,
    pub name: String,
    pub level: i64,
    pub price: i64,
    pub rarity: RarityEnum,
    pub size: SizeEnum,
    pub item_type: ItemTypeEnum,
    pub source: String,
    pub remaster: bool,
    pub traits: Vec<String>,
    pub quantity: i64,
}

/// Two items hold the same values (traits compared by their contents).
pub open spec fn same_item(a: Item, b: Item) -> bool {
    &&& a.id == b.id
    &&& a.name == b.name
    &&& a.level == b.level
    &&& a.price == b.price
    &&& a.rarity == b.rarity
    &&& a.size == b.size
    &&& a.item_type == b.item_type
    &&& a.source == b.source
    &&& a.remaster == b.remaster
    &&& a.traits@ == b.traits@
    &&& a.quantity == b.quantity
}

impl Item {
    /// A copy of the item with the same values.
    pub fn copy(&self) -> (r: Item)
        ensures
            same_item(r, *self),
    {
        let mut traits: Vec<String> = Vec::new();
        let mut i: usize = 0;
        while i < self.traits.len()
            invariant
                i <= self.traits@.len(),
                traits@ == self.traits@.take(i as int),
            decreases self.traits@.len() - i,
        {
            traits.push(self.traits[i].clone());
            i = i + 1;
            assert(traits@ =~= self.traits@.take(i as int));
        }
        assert(self.traits@.take(self.traits@.len() as int) =~= self.traits@);
        Item {
            id: self.id,
            name: self.name.clone(),
            level: self.level,
            price: self.price,
            rarity: self.rarity,
            size: self.size,
            item_type: self.item_type,
            source: self.source.clone(),
            remaster: self.remaster,
            traits,
            quantity: self.quantity,
        }
    }
}

} // verus!
