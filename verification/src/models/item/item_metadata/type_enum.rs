use crate::models::shared::game_system_enum::{gs_text, GameSystem};
use crate::text::{all_ascii, ascii_upper, concat2, to_uppercase, unicode_upper};
use vstd::prelude::*;

verus! {

/// The kinds of items a shop sells.
#[derive(Clone, Copy, Debug, PartialEq, Eq, Structural, Hash)]
pub enum ItemTypeEnum {
    Consumable,
    Equipment,
    Weapon,
    Armor,
    Shield,
}

/// The display name of an item type: the variant's name.
pub open spec fn item_type_text(t: ItemTypeEnum) -> Seq<char> {
    match t {
        ItemTypeEnum::Consumable => "Consumable"@,
        ItemTypeEnum::Equipment => "Equipment"@,
        ItemTypeEnum::Weapon => "Weapon"@,
        ItemTypeEnum::Armor => "Armor"@,
        ItemTypeEnum::Shield => "Shield"@,
    }
}

/// The name of the table that holds the items of a type (without the game prefix).
pub open spec fn item_table_suffix(t: ItemTypeEnum) -> Seq<char> {
    match t {
        ItemTypeEnum::Consumable | ItemTypeEnum::Equipment => "_item_table"@,
        ItemTypeEnum::Weapon => "_weapon_table"@,
        ItemTypeEnum::Armor => "_armor_table"@,
        ItemTypeEnum::Shield => "_shield_table"@,
    }
}

/// The name of the table that links creatures to the items of a type.
pub open spec fn item_association_suffix(t: ItemTypeEnum) -> Seq<char> {
    match t {
        ItemTypeEnum::Consumable | ItemTypeEnum::Equipment => "_item_creature_association_table"@,
        ItemTypeEnum::Weapon => "_weapon_creature_association_table"@,
        ItemTypeEnum::Armor => "_armor_creature_association_table"@,
        ItemTypeEnum::Shield => "_shield_creature_association_table"@,
    }
}

/// The item type named by an upper-case text, if any.
pub open spec fn item_type_from_upper(u: Seq<char>) -> Option<ItemTypeEnum> {
    if u == "CONSUMABLE"@ {
        Some(ItemTypeEnum::Consumable)
    } else if u == "EQUIPMENT"@ {
        Some(ItemTypeEnum::Equipment)
    } else if u == "WEAPON"@ {
        Some(ItemTypeEnum::Weapon)
    } else if u == "ARMOR"@ {
        Some(ItemTypeEnum::Armor)
    } else if u == "SHIELD"@ {
        Some(ItemTypeEnum::Shield)
    } else {
        None
    }
}

impl ItemTypeEnum {
    /// Parses an item type name in any letter case; anything else is an error.
    pub fn from_str(s: &str) -> (r: Result<ItemTypeEnum, ()>)
        ensures
            r == (match item_type_from_upper(unicode_upper(s@)) {
                Some(v) => Ok::<ItemTypeEnum, ()>(v),
                None => Err(()),
            }),
            all_ascii(s@) ==> r == (match item_type_from_upper(ascii_upper(s@)) {
                Some(v) => Ok::<ItemTypeEnum, ()>(v),
                None => Err(()),
            }),
    {
        let u = to_uppercase(s);
        if u.eq(&String::from_str("CONSUMABLE")) {
            Ok(ItemTypeEnum::Consumable)
        } else if u.eq(&String::from_str("EQUIPMENT")) {
            Ok(ItemTypeEnum::Equipment)
        } else if u.eq(&String::from_str("WEAPON")) {
            Ok(ItemTypeEnum::Weapon)
        } else if u.eq(&String::from_str("ARMOR")) {
            Ok(ItemTypeEnum::Armor)
        } else if u.eq(&String::from_str("SHIELD")) {
            Ok(ItemTypeEnum::Shield)
        } else {
            Err(())
        }
    }

    pub fn to_string(&self) -> (r: String)
        ensures
            r@ == item_type_text(*self),
    {
        match self {
            ItemTypeEnum::Consumable => String::from_str("Consumable"),
            ItemTypeEnum::Equipment => String::from_str("Equipment"),
            ItemTypeEnum::Weapon => String::from_str("Weapon"),
            ItemTypeEnum::Armor => String::from_str("Armor"),
            ItemTypeEnum::Shield => String::from_str("Shield"),
        }
    }

    /// The table holding the items of this type, such as `pf_weapon_table`.
    pub fn to_db_main_table_name(&self, gs: GameSystem) -> (r: String)
        ensures
            r@ == gs_text(gs) + item_table_suffix(*self),
    {
        let suffix = match self {
            ItemTypeEnum::Consumable | ItemTypeEnum::Equipment => "_item_table",
            ItemTypeEnum::Weapon => "_weapon_table",
            ItemTypeEnum::Armor => "_armor_table",
            ItemTypeEnum::Shield => "_shield_table",
        };
        concat2(gs.to_str(), suffix)
    }

    /// The table linking creatures to the items of this type, such as
    /// `pf_weapon_creature_association_table`.
    pub fn to_db_association_table_name(&self, gs: GameSystem) -> (r: String)
        ensures
            r@ == gs_text(gs) + item_association_suffix(*self),
    {
        let suffix = match self {
            ItemTypeEnum::Consumable | ItemTypeEnum::Equipment => "_item_creature_association_table",
            ItemTypeEnum::Weapon => "_weapon_creature_association_table",
            ItemTypeEnum::Armor => "_armor_creature_association_table",
            ItemTypeEnum::Shield => "_shield_creature_association_table",
        };
        concat2(gs.to_str(), suffix)
    }
}

/// Parsing the display name of an item type gives the type back.
pub proof fn lemma_item_type_text_parses_back(t: ItemTypeEnum)
    ensures
        all_ascii(item_type_text(t)),
        item_type_from_upper(ascii_upper(item_type_text(t))) == Some(t),
{
    reveal_strlit("Consumable");
    reveal_strlit("Equipment");
    reveal_strlit("Weapon");
    reveal_strlit("Armor");
    reveal_strlit("Shield");
    reveal_strlit("CONSUMABLE");
    reveal_strlit("EQUIPMENT");
    reveal_strlit("WEAPON");
    reveal_strlit("ARMOR");
    reveal_strlit("SHIELD");
    match t {
        ItemTypeEnum::Consumable => {
            assert(ascii_upper("Consumable"@) =~= "CONSUMABLE"@);
        },
        ItemTypeEnum::Equipment => {
            assert(ascii_upper("Equipment"@) =~= "EQUIPMENT"@);
            assert("EQUIPMENT"@ != "CONSUMABLE"@);
        },
        ItemTypeEnum::Weapon => {
            assert(ascii_upper("Weapon"@) =~= "WEAPON"@);
            assert("WEAPON"@ != "CONSUMABLE"@);
            assert("WEAPON"@ != "EQUIPMENT"@);
        },
        ItemTypeEnum::Armor => {
            assert(ascii_upper("Armor"@) =~= "ARMOR"@);
            assert("ARMOR"@ != "CONSUMABLE"@);
            assert("ARMOR"@ != "EQUIPMENT"@);
            assert("ARMOR"@ != "WEAPON"@);
        },
        ItemTypeEnum::Shield => {
            assert(ascii_upper("Shield"@) =~= "SHIELD"@);
            assert("SHIELD"@ != "CONSUMABLE"@);
            assert("SHIELD"@ != "EQUIPMENT"@);
            assert("SHIELD"@ != "WEAPON"@) by {
                assert("SHIELD"@[0] != "WEAPON"@[0]);
            }
            assert("SHIELD"@ != "ARMOR"@);
        },
    }
}

/// Whether a weapon strikes in melee or at range.
#[derive(Clone, Copy, Debug, PartialEq, Eq, Structural, Hash)]
pub enum WeaponTypeEnum {
    Melee,
    Ranged,
    Generic,
}

} // verus!
