use bybe::models::creature_metadata::rarity_enum::RarityEnum;
use bybe::models::creature_metadata::size_enum::SizeEnum;
use bybe::models::item::item_metadata::type_enum::{ItemTypeEnum, WeaponTypeEnum};
use bybe::models::item::item_struct::Item;
use bybe::models::item::weapon_struct::{DamageData, Weapon, WeaponData};
use bybe::models::routers_validator_structs::Dice;
use bybe::models::scales_struct::creature_scales::{
    index_by_level, AcScales, AreaDmgScales, CreatureScales, ItemScales, ResWeakScales,
};
use bybe::models::shared::game_system_enum::GameSystem;

fn damage(dice: Option<Dice>, bonus: i64) -> DamageData {
    DamageData { id: 1, bonus_dmg: bonus, dmg_type: Some("slashing".to_string()), dice }
}

fn weapon(dd: Vec<DamageData>) -> Weapon {
    Weapon {
        item_core: Item {
            id: 1,
            name: "Greataxe".to_string(),
            level: 0,
            price: 2,
            rarity: RarityEnum::Common,
            size: SizeEnum::Medium,
            item_type: ItemTypeEnum::Weapon,
            source: "Core".to_string(),
            remaster: false,
            traits: vec![],
            quantity: 1,
        },
        weapon_data: WeaponData {
            id: 1,
            to_hit_bonus: Some(9),
            splash_dmg: None,
            damage_data: dd,
            weapon_type: WeaponTypeEnum::Melee,
            n_of_potency_runes: 0,
            n_of_striking_runes: 0,
            range: None,
            reload: None,
            property_runes: vec![],
        },
    }
}

#[test]
fn weapon_average_damage_sums_its_components() {
    let d6 = Dice::from_optional_dice_number_and_size(Some(2), Some(6));
    let d4 = Dice::from_optional_dice_number_and_size(Some(1), Some(4));
    let w = weapon(vec![damage(d6, 3), damage(d4, 0)]);
    // 2d6 averages 7, 1d4 averages 2 (5 / 2 rounded down).
    assert_eq!(w.get_avg_dmg(), Some(12));
    let w = weapon(vec![damage(None, 4)]);
    assert_eq!(w.get_avg_dmg(), Some(4));
    assert_eq!(weapon(vec![]).get_avg_dmg(), None);
}

#[test]
fn dice_need_both_number_and_size() {
    assert_eq!(
        Dice::from_optional_dice_number_and_size(Some(3), Some(8)),
        Some(Dice { n_of_dices: 3, dice_size: 8 })
    );
    assert_eq!(Dice::from_optional_dice_number_and_size(None, Some(8)), None);
    assert_eq!(Dice::from_optional_dice_number_and_size(Some(3), None), None);
}

#[test]
fn item_tables_are_named_after_the_game_system() {
    assert_eq!(ItemTypeEnum::Weapon.to_db_main_table_name(GameSystem::Pathfinder), "pf_weapon_table");
    assert_eq!(ItemTypeEnum::Consumable.to_db_main_table_name(GameSystem::Starfinder), "sf_item_table");
    assert_eq!(
        ItemTypeEnum::Shield.to_db_association_table_name(GameSystem::Pathfinder),
        "pf_shield_creature_association_table"
    );
    assert_eq!(ItemTypeEnum::Armor.to_string(), "Armor");
    assert_eq!(GameSystem::Starfinder.to_string(), "sf");
}

fn ac(level: i64, high: i64) -> AcScales {
    AcScales { level, extreme: high + 3, high, moderate: high - 1, low: high - 3 }
}

#[test]
fn scale_rows_are_keyed_by_level_last_row_winning() {
    let rows = vec![ac(1, 16), ac(2, 18), ac(1, 17)];
    let m = index_by_level(&rows);
    assert_eq!(m.len(), 2);
    assert_eq!(m[&1].high, 17);
    assert_eq!(m[&2].high, 18);
    let area = vec![AreaDmgScales { level: 3, unlimited_use: "2d6 (7)".to_string(), limited_use: "3d6 (10)".to_string() }];
    let items = vec![
        ItemScales { cr_level: "1".to_string(), safe_item_level: "0".to_string() },
        ItemScales { cr_level: "2".to_string(), safe_item_level: "1".to_string() },
        ItemScales { cr_level: "1".to_string(), safe_item_level: "2".to_string() },
    ];
    let res_weak = vec![ResWeakScales { level: 3, max: 8, min: 4 }, ResWeakScales { level: 4, max: 9, min: 5 }];
    let scales = CreatureScales::from_rows(
        &vec![],
        &rows,
        &area,
        &vec![],
        &items,
        &vec![],
        &res_weak,
        &vec![],
        &vec![],
        &vec![],
        &vec![],
        &vec![],
    );
    assert_eq!(scales.ac_scales.len(), 2);
    assert!(scales.ability_scales.is_empty());
    assert!(scales.strike_dmg_scales.is_empty());
    assert_eq!(scales.area_dmg_scales[&3].limited_use, "3d6 (10)");
    assert_eq!(scales.res_weak_scales.len(), 2);
    assert_eq!(scales.res_weak_scales[&4].min, 5);
    assert_eq!(scales.item_scales.len(), 2);
    assert_eq!(scales.item_scales.get("1").map(|r| r.safe_item_level.clone()), Some("2".to_string()));
    assert_eq!(scales.item_scales.get("2").map(|r| r.safe_item_level.clone()), Some("1".to_string()));
}
