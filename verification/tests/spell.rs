use bybe::models::creature::creature_metadata::variant_enum::CreatureVariant;
use bybe::models::creature::items::spell::{Spell, SpellDamageData};
use bybe::models::routers_validator_structs::Dice;

fn dmg(bonus_dmg: i64) -> SpellDamageData {
    SpellDamageData {
        id: 1,
        bonus_dmg,
        dmg_type: Some("fire".to_string()),
        category: None,
        kinds: vec!["damage".to_string()],
        dice: Some(Dice { n_of_dices: 6, dice_size: 6 }),
    }
}

fn spell(damage: Vec<SpellDamageData>) -> Spell {
    Spell {
        id: 1,
        name: "Fireball".to_string(),
        area_type: None,
        area_value: None,
        counteraction: false,
        basic_saving_throw: None,
        saving_throw: None,
        sustained: false,
        duration: None,
        level: 3,
        range: None,
        target: String::new(),
        actions: String::new(),
        license: String::new(),
        remaster: false,
        source: String::new(),
        rarity: "common".to_string(),
        slot: 3,
        creature_id: 1,
        spellcasting_entry_id: 1,
        description: String::default(),
        damage,
    }
}

fn check_variant_damage(variant: CreatureVariant, expected_delta: i64) {
    let og_dmg_zero = dmg(0);
    let og_dmg_two = dmg(2);
    let converted = spell(vec![dmg(2), dmg(0)]).convert_from_base_to_variant(variant);
    assert_eq!(og_dmg_two.bonus_dmg + expected_delta, converted.damage[0].bonus_dmg);
    assert_eq!(og_dmg_zero.bonus_dmg + expected_delta, converted.damage[1].bonus_dmg);
}

#[test]
fn convert_from_base_to_variant_adjusts_damage_by_four_base() {
    check_variant_damage(CreatureVariant::Base, 0);
}

#[test]
fn convert_from_base_to_variant_adjusts_damage_by_four_elite() {
    check_variant_damage(CreatureVariant::Elite, 4);
}

#[test]
fn convert_from_base_to_variant_adjusts_damage_by_four_weak() {
    check_variant_damage(CreatureVariant::Weak, -4);
}

#[test]
fn damage_add_mod_shifts_the_bonus_only() {
    let d = dmg(1).add_mod(5);
    assert_eq!(d.bonus_dmg, 6);
    assert_eq!(d.dice, Some(Dice { n_of_dices: 6, dice_size: 6 }));
    assert_eq!(d.dmg_type, Some("fire".to_string()));
    assert_eq!(dmg(-3).add_mod(-2).bonus_dmg, -5);
}
