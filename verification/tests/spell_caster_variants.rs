use bybe::db::data_providers::creature_fetcher::creature_from_fetched_parts;
use bybe::models::creature::creature_component::creature_core::{CreatureCoreData, DerivedData, EssentialData};
use bybe::models::creature::creature_component::creature_spell_caster::CreatureSpellcasterData;
use bybe::models::creature::creature_metadata::type_enum::CreatureTypeEnum;
use bybe::models::creature::creature_metadata::variant_enum::CreatureVariant;
use bybe::models::creature::creature_struct::Creature;
use bybe::models::creature::items::spell::{Spell, SpellDamageData};
use bybe::models::creature::items::spell_caster_entry::{SpellcasterData, SpellcasterEntry};
use bybe::models::creature_metadata::alignment_enum::AlignmentEnum;
use bybe::models::creature_metadata::rarity_enum::RarityEnum;
use bybe::models::creature_metadata::size_enum::SizeEnum;
use std::collections::BTreeMap;

fn spell(id: i64, bonus_dmg: &[i64]) -> Spell {
    Spell {
        id,
        name: "Electric Arc".to_string(),
        area_type: None,
        area_value: None,
        counteraction: false,
        basic_saving_throw: Some(true),
        saving_throw: Some("reflex".to_string()),
        sustained: false,
        duration: None,
        level: 1,
        range: None,
        target: String::new(),
        actions: "2".to_string(),
        license: String::new(),
        remaster: true,
        source: String::new(),
        rarity: "common".to_string(),
        slot: 1,
        creature_id: 1,
        spellcasting_entry_id: 1,
        description: String::new(),
        damage: bonus_dmg
            .iter()
            .enumerate()
            .map(|(i, &b)| SpellDamageData {
                id: i as i64,
                bonus_dmg: b,
                dmg_type: Some("electricity".to_string()),
                category: None,
                kinds: vec!["damage".to_string()],
                dice: None,
            })
            .collect(),
    }
}

fn entry(dc: Option<i64>, atk: Option<i64>) -> SpellcasterEntry {
    let mut spells = BTreeMap::new();
    spells.insert(0, vec![spell(1, &[0])]);
    spells.insert(1, vec![spell(2, &[3, -2]), spell(3, &[])]);
    SpellcasterEntry {
        spellcaster_data: SpellcasterData {
            id: 1,
            spell_casting_name: "Arcane Prepared Spells".to_string(),
            is_spell_casting_flexible: Some(false),
            type_of_spell_caster: "prepared".to_string(),
            spell_casting_dc_mod: dc,
            spell_casting_atk_mod: atk,
            spell_casting_tradition: "arcane".to_string(),
        },
        spells,
    }
}

fn damage_by_rank(e: &SpellcasterEntry) -> Vec<(i64, Vec<Vec<i64>>)> {
    e.spells
        .iter()
        .map(|(rank, spells)| (*rank, spells.iter().map(|s| s.damage.iter().map(|d| d.bonus_dmg).collect()).collect()))
        .collect()
}

fn mage_core(hp: i64, level: i64) -> CreatureCoreData {
    CreatureCoreData {
        essential: EssentialData {
            id: 1,
            aon_id: Some(1),
            name: "Mage".to_string(),
            hp,
            base_level: level,
            size: SizeEnum::Medium,
            family: "Human".to_string(),
            rarity: RarityEnum::Common,
            license: "ORC".to_string(),
            remaster: true,
            source: "Monster Core".to_string(),
            cr_type: CreatureTypeEnum::Npc,
            alignment: AlignmentEnum::No,
            focus_points: 0,
            status: "valid".to_string(),
        },
        derived: DerivedData::new(Some((1, CreatureTypeEnum::Npc)), vec![], vec![]),
        traits: vec!["Human".to_string()],
    }
}

#[test]
fn elite_and_weak_spellcasting_shift_dc_attack_and_spell_damage() {
    let data = CreatureSpellcasterData { spell_caster_entries: vec![entry(Some(20), None)] };

    let elite = data.clone().convert_from_base_to_variant(CreatureVariant::Elite);
    let e = &elite.spell_caster_entries[0];
    assert_eq!(e.spellcaster_data.spell_casting_dc_mod, Some(22));
    assert_eq!(e.spellcaster_data.spell_casting_atk_mod, None);
    assert_eq!(damage_by_rank(e), vec![(0, vec![vec![4]]), (1, vec![vec![7, 2], vec![]])]);

    let weak = data.clone().convert_from_base_to_variant(CreatureVariant::Weak);
    let w = &weak.spell_caster_entries[0];
    assert_eq!(w.spellcaster_data.spell_casting_dc_mod, Some(18));
    assert_eq!(damage_by_rank(w), vec![(0, vec![vec![-4]]), (1, vec![vec![-1, -6], vec![]])]);

    let base = data.convert_from_base_to_variant(CreatureVariant::Base);
    let b = &base.spell_caster_entries[0];
    assert_eq!(b.spellcaster_data.spell_casting_dc_mod, Some(20));
    assert_eq!(damage_by_rank(b), vec![(0, vec![vec![0]]), (1, vec![vec![3, -2], vec![]])]);
}

#[test]
fn creature_variants_carry_the_spell_damage_change() {
    let mut c = Creature::from_core(mage_core(60, 5));
    c.spell_caster_data = Some(CreatureSpellcasterData { spell_caster_entries: vec![entry(Some(21), Some(11))] });
    let elite = c.clone().convert_creature_to_variant(CreatureVariant::Elite);
    let e = &elite.spell_caster_data.as_ref().unwrap().spell_caster_entries[0];
    assert_eq!(elite.core_data.essential.hp, 80);
    assert_eq!(elite.variant_data.level, 6);
    assert_eq!(e.spellcaster_data.spell_casting_dc_mod, Some(23));
    assert_eq!(e.spellcaster_data.spell_casting_atk_mod, Some(13));
    assert_eq!(damage_by_rank(e), vec![(0, vec![vec![4]]), (1, vec![vec![7, 2], vec![]])]);

    let weak = c.convert_creature_to_variant(CreatureVariant::Weak);
    let w = &weak.spell_caster_data.as_ref().unwrap().spell_caster_entries[0];
    assert_eq!(weak.core_data.essential.hp, 45);
    assert_eq!(weak.variant_data.level, 4);
    assert_eq!(w.spellcaster_data.spell_casting_atk_mod, Some(9));
    assert_eq!(damage_by_rank(w), vec![(0, vec![vec![-4]]), (1, vec![vec![-1, -6], vec![]])]);
}

#[test]
fn the_base_variant_accepts_any_hit_points_and_level() {
    for (hp, level) in [(i64::MAX, i64::MAX), (1, i64::MIN), (5, 0)] {
        let from_variant = Creature::from_core_with_variant(mage_core(hp, level), CreatureVariant::Base);
        let plain = Creature::from_core(mage_core(hp, level));
        assert_eq!(from_variant.core_data.essential.hp, hp);
        assert_eq!(from_variant.core_data.essential.hp, plain.core_data.essential.hp);
        assert_eq!(from_variant.variant_data.level, level);
        assert_eq!(from_variant.variant_data.level, plain.variant_data.level);
        assert_eq!(from_variant.variant_data.variant, CreatureVariant::Base);
        assert_eq!(from_variant.variant_data.archive_link, plain.variant_data.archive_link);
        assert_eq!(from_variant.core_data.derived.archive_link, plain.core_data.derived.archive_link);
    }
    // Hit points below one are raised to one, the base variant included.
    let low = Creature::from_core_with_variant(mage_core(i64::MIN, 2), CreatureVariant::Base);
    assert_eq!(low.core_data.essential.hp, 1);
}

#[test]
fn fetched_parts_make_the_asked_variant_and_apply_pwl_when_on() {
    let spells = Some(CreatureSpellcasterData { spell_caster_entries: vec![entry(Some(21), Some(11))] });
    let elite = creature_from_fetched_parts(mage_core(60, 5), None, None, spells.clone(), CreatureVariant::Elite, None);
    assert_eq!(elite.core_data.essential.hp, 80);
    assert_eq!(elite.variant_data.level, 6);
    assert_eq!(elite.variant_data.variant, CreatureVariant::Elite);
    assert!(elite.extra_data.is_none() && elite.combat_data.is_none());
    let e = &elite.spell_caster_data.as_ref().unwrap().spell_caster_entries[0];
    assert_eq!(e.spellcaster_data.spell_casting_dc_mod, Some(23));
    assert_eq!(damage_by_rank(e), vec![(0, vec![vec![4]]), (1, vec![vec![7, 2], vec![]])]);

    let mut base = Creature::from_core(mage_core(60, 5));
    base.spell_caster_data = spells.clone();
    let by_hand = base.convert_creature_to_variant(CreatureVariant::Elite).convert_creature_to_pwl();
    let pwl = creature_from_fetched_parts(mage_core(60, 5), None, None, spells.clone(), CreatureVariant::Elite, Some(true));
    let p = &pwl.spell_caster_data.as_ref().unwrap().spell_caster_entries[0];
    let h = &by_hand.spell_caster_data.as_ref().unwrap().spell_caster_entries[0];
    assert_eq!(p.spellcaster_data.spell_casting_dc_mod, h.spellcaster_data.spell_casting_dc_mod);
    assert_eq!(p.spellcaster_data.spell_casting_atk_mod, h.spellcaster_data.spell_casting_atk_mod);
    assert_ne!(p.spellcaster_data.spell_casting_dc_mod, Some(23));
    assert_eq!(pwl.core_data.essential.hp, 80);

    let off = creature_from_fetched_parts(mage_core(60, 5), None, None, spells, CreatureVariant::Base, Some(false));
    assert_eq!(off.core_data.essential.hp, 60);
    assert_eq!(off.spell_caster_data.unwrap().spell_caster_entries[0].spellcaster_data.spell_casting_dc_mod, Some(21));
}
