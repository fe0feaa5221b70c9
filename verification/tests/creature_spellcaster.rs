use bybe::models::creature::creature_component::creature_spellcaster::CreatureSpellcasterData;
use bybe::models::creature::creature_metadata::variant_enum::CreatureVariant;
use bybe::models::creature::items::spell::{Spell, SpellDamageData};
use bybe::models::creature::items::spellcaster_entry::{SpellcasterData, SpellcasterEntry};

fn spellcaster_data() -> SpellcasterData {
    SpellcasterData {
        id: 1,
        spellcasting_name: "Innate".to_string(),
        is_spellcasting_flexible: None,
        type_of_spellcaster: "innate".to_string(),
        spellcasting_dc_mod: 20,
        spellcasting_atk_mod: 10,
        spellcasting_tradition: "arcane".to_string(),
        heighten_level: 1,
    }
}

fn spell_with_damage(bonus_dmg: i64) -> Spell {
    Spell {
        id: 1,
        name: "Fireball".to_string(),
        area_type: None,
        area_value: None,
        counteraction: false,
        basic_saving_throw: None,
        saving_throw: None,
        sustained: false,
        duration: None,
        level: 3,
        range: None,
        target: String::new(),
        actions: String::new(),
        license: String::new(),
        remaster: false,
        source: String::new(),
        rarity: "common".to_string(),
        slot: 3,
        creature_id: 1,
        spellcasting_entry_id: 1,
        description: String::default(),
        damage: vec![SpellDamageData {
            id: 1,
            bonus_dmg,
            dmg_type: Some("fire".to_string()),
            category: None,
            kinds: vec!["damage".to_string()],
            dice: None,
        }],
    }
}

#[test]
fn convert_from_base_to_variant_applies_two_to_dc_atk_and_four_to_spell_damage() {
    let data = CreatureSpellcasterData {
        spellcaster_entries: vec![SpellcasterEntry {
            spellcaster_data: spellcaster_data(),
            spells: vec![spell_with_damage(2)],
        }],
    };
    let og_dc_mod = data.spellcaster_entries[0].spellcaster_data.spellcasting_dc_mod;
    let og_atk_mod = data.spellcaster_entries[0].spellcaster_data.spellcasting_atk_mod;
    let og_bonus_dmg = data.spellcaster_entries[0].spells[0].damage[0].bonus_dmg;

    let elite = data.clone().convert_from_base_to_variant(CreatureVariant::Elite);
    let entry = &elite.spellcaster_entries[0];
    assert_eq!(og_dc_mod + 2, entry.spellcaster_data.spellcasting_dc_mod);
    assert_eq!(og_atk_mod + 2, entry.spellcaster_data.spellcasting_atk_mod);
    assert_eq!(og_bonus_dmg + 4, entry.spells[0].damage[0].bonus_dmg);

    let weak = data.convert_from_base_to_variant(CreatureVariant::Weak);
    let entry = &weak.spellcaster_entries[0];
    assert_eq!(og_dc_mod - 2, entry.spellcaster_data.spellcasting_dc_mod);
    assert_eq!(og_atk_mod - 2, entry.spellcaster_data.spellcasting_atk_mod);
    assert_eq!(og_bonus_dmg - 4, entry.spells[0].damage[0].bonus_dmg);
}
