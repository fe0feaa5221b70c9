use bybe::models::creature::creature_component::creature_spellcaster::pwl_modifier;
use bybe::models::creature::creature_metadata::variant_enum::CreatureVariant;
use bybe::models::creature::creature_component::creature_combat::{CreatureCombatData, SavingThrows};
use bybe::models::creature::creature_component::creature_core::{CreatureCoreData, DerivedData, EssentialData};
use bybe::models::creature::creature_struct::Creature;
use bybe::models::creature::creature_component::creature_extra::{AbilityScores, CreatureExtraData};
use bybe::models::creature::items::skill::Skill;
use bybe::models::creature::creature_metadata::creature_role::{CreatureRoleEnum, StrikeDamageAverages};
use bybe::models::creature::creature_metadata::type_enum::CreatureTypeEnum;
use bybe::models::creature_component::creature_spell_caster::{CreatureSpellCasterData, SpellCasterEntry};
use bybe::models::creature_metadata::alignment_enum::AlignmentEnum;
use bybe::models::creature_metadata::rarity_enum::RarityEnum;
use bybe::models::creature_metadata::size_enum::SizeEnum;
use bybe::models::scales_struct::creature_scales::{
    AbilityScales, CreatureScales, PerceptionScales, SavingThrowScales, StrikeBonusScales, StrikeDmgScales,
};
use bybe::models::shared::description::Description;
use std::collections::BTreeMap;

fn essential(level: i64) -> EssentialData {
    EssentialData {
        id: 1,
        aon_id: Some(10),
        name: "Goblin Warrior".to_string(),
        hp: 6,
        base_level: level,
        size: SizeEnum::Small,
        family: "Goblin".to_string(),
        rarity: RarityEnum::Common,
        license: "ORC".to_string(),
        remaster: true,
        source: "Monster Core".to_string(),
        cr_type: CreatureTypeEnum::Monster,
        alignment: AlignmentEnum::No,
        focus_points: 0,
        status: "valid".to_string(),
    }
}

fn extra() -> CreatureExtraData {
    CreatureExtraData {
        actions: vec![],
        skills: vec![],
        items: vec![],
        languages: vec![],
        senses: vec![],
        speeds: vec![("land".to_string(), 25)],
        ability_scores: AbilityScores {
            charisma: 0,
            constitution: 1,
            dexterity: 4,
            intelligence: 0,
            strength: 0,
            wisdom: 1,
        },
        hp_detail: None,
        ac_detail: None,
        language_detail: None,
        perception: 6,
        perception_detail: None,
        has_vision: true,
        description: Description { text: String::new() },
        blurb: String::new(),
        speed_details: String::new(),
    }
}

fn skill(name: &str, modifier: i64) -> Skill {
    Skill { name: name.to_string(), description: None, modifier, proficiency: 2 }
}

fn combat() -> CreatureCombatData {
    CreatureCombatData {
        weapons: vec![],
        armors: vec![],
        shields: vec![],
        resistances: BTreeMap::new(),
        immunities: vec![],
        weaknesses: BTreeMap::new(),
        saving_throws: SavingThrows {
            fortitude: 5,
            reflex: 9,
            will: 4,
            fortitude_detail: None,
            reflex_detail: None,
            will_detail: None,
        },
        ac: 16,
    }
}

fn spells() -> CreatureSpellCasterData {
    CreatureSpellCasterData {
        spells: vec![],
        spell_caster_entry: SpellCasterEntry {
            spell_casting_name: None,
            is_spell_casting_flexible: None,
            type_of_spell_caster: None,
            spell_casting_dc_mod: None,
            spell_casting_atk_mod: None,
            spell_casting_tradition: None,
        },
    }
}

fn scales(dmg_text: &str) -> CreatureScales {
    CreatureScales::from_rows(
        &vec![AbilityScales { level: 1, extreme: Some(5), high: 4, moderate: 3, low: 1 }],
        &vec![],
        &vec![],
        &vec![],
        &vec![],
        &vec![PerceptionScales { level: 1, extreme: 10, high: 8, moderate: 6, low: 4, terrible: 2 }],
        &vec![],
        &vec![SavingThrowScales { level: 1, extreme: 11, high: 9, moderate: 7, low: 5, terrible: 3 }],
        &vec![],
        &vec![],
        &vec![StrikeBonusScales { level: 1, extreme: 11, high: 9, moderate: 7, low: 5 }],
        &vec![StrikeDmgScales {
            level: 1,
            extreme: dmg_text.to_string(),
            high: dmg_text.to_string(),
            moderate: dmg_text.to_string(),
            low: dmg_text.to_string(),
        }],
    )
}

fn percentage(roles: &[(CreatureRoleEnum, i64)], role: CreatureRoleEnum) -> i64 {
    roles.iter().find(|(r, _)| *r == role).map(|(_, p)| *p).unwrap()
}

#[test]
fn roles_are_rated_in_order_against_the_level_tables() {
    let roles = CreatureRoleEnum::from_creature_with_given_scales(
        &essential(1),
        &extra(),
        &combat(),
        &spells(),
        &scales("1d6+2 (6)"),
    );
    let order: Vec<CreatureRoleEnum> = roles.iter().map(|(r, _)| *r).collect();
    assert_eq!(
        order,
        vec![
            CreatureRoleEnum::Brute,
            CreatureRoleEnum::MagicalStriker,
            CreatureRoleEnum::SkillParagon,
            CreatureRoleEnum::Skirmisher,
            CreatureRoleEnum::Sniper,
            CreatureRoleEnum::Soldier,
            CreatureRoleEnum::SpellCaster,
        ]
    );
    // A land speed of 25 is five short of a skirmisher's 30.
    assert_eq!(percentage(&roles, CreatureRoleEnum::Skirmisher), 37);
    // Without any weapon a sniper misses its strikes entirely (a distance of 20).
    assert_eq!(percentage(&roles, CreatureRoleEnum::Sniper), 2);
    // The tables for AC, hit points, skills and spells are missing at this level.
    assert_eq!(percentage(&roles, CreatureRoleEnum::Brute), 0);
    assert_eq!(percentage(&roles, CreatureRoleEnum::MagicalStriker), 0);
    assert_eq!(percentage(&roles, CreatureRoleEnum::SkillParagon), 0);
    assert_eq!(percentage(&roles, CreatureRoleEnum::Soldier), 0);
    assert_eq!(percentage(&roles, CreatureRoleEnum::SpellCaster), 0);
}

#[test]
fn a_damage_text_without_an_average_leaves_the_sniper_unrated() {
    let roles = CreatureRoleEnum::from_creature_with_given_scales(
        &essential(1),
        &extra(),
        &combat(),
        &spells(),
        &scales("1d6+2"),
    );
    assert_eq!(percentage(&roles, CreatureRoleEnum::Sniper), 0);
    assert_eq!(percentage(&roles, CreatureRoleEnum::Skirmisher), 37);
}

#[test]
fn a_level_without_tables_rates_every_role_zero() {
    let roles = CreatureRoleEnum::from_creature_with_given_scales(
        &essential(2),
        &extra(),
        &combat(),
        &spells(),
        &scales("1d6+2 (6)"),
    );
    assert_eq!(roles.len(), 7);
    assert!(roles.iter().all(|(_, p)| *p == 0));
}

#[test]
fn given_damage_averages_are_used_directly() {
    let averages = StrikeDamageAverages { extreme: Some(8), high: Some(6), moderate: Some(5) };
    let roles = CreatureRoleEnum::from_creature_with_given_damage_averages(
        &essential(1),
        &extra(),
        &combat(),
        &spells(),
        &scales("no average"),
        &averages,
    );
    assert_eq!(percentage(&roles, CreatureRoleEnum::Sniper), 2);
    let none = StrikeDamageAverages { extreme: None, high: None, moderate: None };
    let roles = CreatureRoleEnum::from_creature_with_given_damage_averages(
        &essential(1),
        &extra(),
        &combat(),
        &spells(),
        &scales("1d6+2 (6)"),
        &none,
    );
    assert_eq!(percentage(&roles, CreatureRoleEnum::Sniper), 0);
}

#[test]
fn role_names_parse_back() {
    assert_eq!(CreatureRoleEnum::from_str("brute"), Ok(CreatureRoleEnum::Brute));
    assert_eq!(CreatureRoleEnum::from_str("Magical Striker"), Ok(CreatureRoleEnum::MagicalStriker));
    assert_eq!(CreatureRoleEnum::from_str("skillparagon"), Ok(CreatureRoleEnum::SkillParagon));
    assert_eq!(CreatureRoleEnum::from_str("SPELL CASTER"), Ok(CreatureRoleEnum::SpellCaster));
    assert_eq!(CreatureRoleEnum::from_str("tank"), Err(()));
    for name in CreatureRoleEnum::list() {
        assert!(CreatureRoleEnum::from_str(name.as_str()).is_ok());
    }
    assert_eq!(CreatureRoleEnum::Sniper.to_db_column(), "sniper_percentage");
    assert_eq!(CreatureRoleEnum::SpellCaster.to_role_key(), "spellcaster");
    assert_eq!(CreatureRoleEnum::MagicalStriker.to_string(), "Magical Striker");
}

#[test]
fn perception_and_skills_follow_the_level_and_variant() {
    let mut e = extra();
    e.skills = vec![skill("Stealth", 7), skill("Athletics", 3)];
    let pwl = e.clone().convert_from_base_to_pwl(3);
    assert_eq!(pwl.perception, 3);
    assert_eq!(pwl.skills.iter().map(|s| s.modifier).collect::<Vec<_>>(), vec![4, 0]);
    let elite = e.clone().convert_from_base_to_variant(CreatureVariant::Elite);
    assert_eq!(elite.perception, 8);
    assert_eq!(elite.skills.iter().map(|s| s.modifier).collect::<Vec<_>>(), vec![9, 5]);
    let weak = e.convert_from_base_to_variant(CreatureVariant::Weak);
    assert_eq!(weak.perception, 4);
    assert_eq!(weak.skills[0].name, "Stealth");
    assert_eq!(pwl_modifier(5), -5);
    assert_eq!(pwl_modifier(u64::MAX), -i64::MAX);
}

#[test]
fn level_without_proficiency_lowers_the_details_only() {
    let core = CreatureCoreData {
        essential: essential(3),
        derived: DerivedData::new(None, vec![], vec![]),
        traits: vec![],
    };
    let mut c = Creature::from_core(core);
    let mut e = extra();
    e.skills = vec![skill("Stealth", 9)];
    c.extra_data = Some(e);
    let pwl = c.convert_creature_to_pwl();
    assert_eq!(pwl.variant_data.level, 3);
    assert_eq!(pwl.core_data.essential.hp, 6);
    let e = pwl.extra_data.unwrap();
    assert_eq!(e.perception, 3);
    assert_eq!(e.skills[0].modifier, 6);
    assert!(pwl.combat_data.is_none());
}
