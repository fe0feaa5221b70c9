use bybe::db::cache::RuntimeFieldsValues as CacheValues;
use bybe::models::bestiary_structs::CreatureTableFieldsFilter;
use bybe::models::creature_metadata::creature_role::CreatureRole;
use bybe::models::creature_metadata::variant_enum::CreatureVariant as FlatVariant;
use bybe::db::db_cache::{from_db_data_to_filter_cache, runtime_fields_values_of};
use bybe::db::db_proxy;
use bybe::models::creature::{is_melee, is_ranged};
use bybe::models::creature_fields_enum::CreatureField;
use bybe::db::proxy::{order_list_by_level, paginate_passing_creatures, prepare_filters_for_db_communication};
use bybe::models::creature::creature_component::creature_core as new_core;
use bybe::models::creature::creature_metadata::type_enum::CreatureTypeEnum as NewTypeEnum;
use bybe::models::creature::creature_struct::Creature as CreatureWithVariant;
use bybe::models::creature::Creature;
use bybe::models::creature_component::creature_combat::{CreatureCombatData, SavingThrows};
use bybe::models::creature_component::creature_core::{CreatureCoreData, DerivedData, EssentialData};
use bybe::models::creature_component::creature_extra::{AbilityScores, CreatureExtraData};
use bybe::models::creature_component::creature_info::CreatureInfo;
use bybe::models::creature_component::creature_spell_caster::{CreatureSpellCasterData, SpellCasterEntry};
use bybe::models::creature_component::creature_variant::CreatureVariantData;
use bybe::models::creature_filter_enum::CreatureFilter;
use bybe::models::creature_metadata::alignment_enum::AlignmentEnum;
use bybe::models::creature_metadata::rarity_enum::RarityEnum;
use bybe::models::creature_metadata::size_enum::SizeEnum;
use bybe::models::creature_metadata::type_enum::CreatureTypeEnum;
use bybe::models::routers_validator_structs::{FieldFilters, PaginatedRequest};
use std::collections::BTreeMap;

fn flat_creature(id: i64, name: &str, family: &str, hp: i64, level: i64, melee: bool) -> Creature {
    Creature {
        core_data: CreatureCoreData {
            essential: EssentialData {
                id,
                aon_id: None,
                name: name.to_string(),
                hp,
                level,
                size: SizeEnum::Medium,
                family: family.to_string(),
                rarity: RarityEnum::Common,
                license: "OGL".to_string(),
                remaster: false,
                source: "Bestiary".to_string(),
                cr_type: CreatureTypeEnum::Monster,
                alignment: AlignmentEnum::N,
            },
            derived: DerivedData {
                archive_link: None,
                is_melee: melee,
                is_ranged: !melee,
                is_spell_caster: false,
                brute_percentage: 0,
                magical_striker_percentage: 0,
                skill_paragon_percentage: 0,
                skirmisher_percentage: 0,
                sniper_percentage: 0,
                soldier_percentage: 0,
                spell_caster_percentage: 0,
            },
            traits: vec![],
        },
        variant_data: CreatureVariantData::from_level_and_link(level, None),
        extra_data: CreatureExtraData {
            actions: vec![],
            skills: vec![],
            languages: vec![],
            senses: vec![],
            speeds: BTreeMap::new(),
            ability_scores: AbilityScores {
                charisma: 0,
                constitution: 0,
                dexterity: 0,
                intelligence: 0,
                strength: 0,
                wisdom: 0,
            },
            hp_detail: None,
            ac_detail: None,
            language_detail: None,
            perception: 0,
            perception_detail: None,
        },
        combat_data: CreatureCombatData {
            weapons: vec![],
            resistances: BTreeMap::new(),
            immunities: vec![],
            weaknesses: BTreeMap::new(),
            saving_throws: SavingThrows {
                fortitude: 0,
                reflex: 0,
                will: 0,
                fortitude_detail: None,
                reflex_detail: None,
                will_detail: None,
            },
            ac: 10,
        },
        spell_caster_data: CreatureSpellCasterData {
            spells: vec![],
            spell_caster_entry: SpellCasterEntry {
                spell_casting_name: None,
                is_spell_casting_flexible: None,
                type_of_spell_caster: None,
                spell_casting_dc_mod: None,
                spell_casting_atk_mod: None,
                spell_casting_tradition: None,
            },
        },
        info: CreatureInfo { roles: vec![], locale: vec![] },
    }
}

fn no_filters() -> FieldFilters {
    FieldFilters {
        name_filter: None,
        family_filter: None,
        rarity_filter: None,
        size_filter: None,
        alignment_filter: None,
        is_melee_filter: None,
        is_ranged_filter: None,
        is_spell_caster_filter: None,
        min_hp_filter: None,
        max_hp_filter: None,
        min_level_filter: None,
        max_level_filter: None,
    }
}

fn list() -> Vec<Creature> {
    vec![
        flat_creature(1, "Goblin Warrior", "Goblin", 6, -1, true),
        flat_creature(2, "Goblin Archer", "Goblin", 8, 0, false),
        flat_creature(3, "Ogre", "Giant", 50, 3, true),
        flat_creature(4, "Goblin Boss", "Goblin", 20, 1, true),
        flat_creature(5, "Hill Giant", "Giant", 90, 7, true),
    ]
}

fn ids(v: &[Creature]) -> Vec<i64> {
    v.iter().map(|c| c.core_data.essential.id).collect()
}

#[test]
fn pages_of_the_passing_creatures() {
    let f = no_filters();
    let (n, page) = paginate_passing_creatures(list(), &f, &PaginatedRequest { cursor: 1, page_size: 2 });
    assert_eq!(n, 2);
    assert_eq!(ids(&page), vec![2, 3]);

    let (n, page) = paginate_passing_creatures(list(), &f, &PaginatedRequest { cursor: 3, page_size: 10 });
    assert_eq!(n, 2);
    assert_eq!(ids(&page), vec![4, 5]);

    let (n, page) = paginate_passing_creatures(list(), &f, &PaginatedRequest { cursor: 9, page_size: 10 });
    assert_eq!(n, 0);
    assert!(page.is_empty());

    let (n, page) = paginate_passing_creatures(list(), &f, &PaginatedRequest { cursor: 0, page_size: -1 });
    assert_eq!(n, 5);
    assert_eq!(ids(&page), vec![1, 2, 3, 4, 5]);
}

#[test]
fn filters_are_applied_before_paging() {
    let mut f = no_filters();
    f.family_filter = Some("gob".to_string());
    f.is_melee_filter = Some(true);
    let (n, page) = paginate_passing_creatures(list(), &f, &PaginatedRequest { cursor: 0, page_size: 10 });
    assert_eq!(n, 2);
    assert_eq!(ids(&page), vec![1, 4]);

    let mut f = no_filters();
    f.min_level_filter = Some(0);
    f.max_hp_filter = Some(60);
    let (_, page) = paginate_passing_creatures(list(), &f, &PaginatedRequest { cursor: 1, page_size: 5 });
    assert_eq!(ids(&page), vec![3, 4]);

    // The name is lowered before the search; the wanted text is taken as written.
    let mut f = no_filters();
    f.name_filter = Some("ogre".to_string());
    let (_, page) = paginate_passing_creatures(list(), &f, &PaginatedRequest { cursor: 0, page_size: 5 });
    assert_eq!(ids(&page), vec![3]);
    f.name_filter = Some("Ogre".to_string());
    let (n, _) = paginate_passing_creatures(list(), &f, &PaginatedRequest { cursor: 0, page_size: 5 });
    assert_eq!(n, 0);
}

#[test]
fn flat_creature_filter_checks() {
    let c = flat_creature(3, "Ogre", "Giant", 50, 3, true);
    assert!(c.is_passing_filters(&no_filters()));
    let mut f = no_filters();
    f.rarity_filter = Some(RarityEnum::Rare);
    assert!(!c.is_passing_filters(&f));
    let mut f = no_filters();
    f.max_level_filter = Some(3);
    f.min_hp_filter = Some(50);
    f.alignment_filter = Some(AlignmentEnum::N);
    assert!(c.is_passing_filters(&f));
    f.is_ranged_filter = Some(true);
    assert!(!c.is_passing_filters(&f));
}

fn creature_at(id: i64, level: i64) -> CreatureWithVariant {
    CreatureWithVariant::from_core(new_core::CreatureCoreData {
        essential: new_core::EssentialData {
            id,
            aon_id: None,
            name: format!("c{}", id),
            hp: 10,
            base_level: level,
            size: SizeEnum::Small,
            family: String::new(),
            rarity: RarityEnum::Common,
            license: String::new(),
            remaster: true,
            source: String::new(),
            cr_type: NewTypeEnum::Monster,
            alignment: AlignmentEnum::No,
            focus_points: 0,
            status: String::new(),
        },
        derived: new_core::DerivedData::new(None, vec![], vec![]),
        traits: vec![],
    })
}

#[test]
fn creatures_are_grouped_by_level_in_order() {
    let groups = order_list_by_level(vec![creature_at(1, 2), creature_at(2, 0), creature_at(3, 2), creature_at(4, -1)]);
    assert_eq!(groups.len(), 3);
    let at = |l: i64| -> Vec<i64> { groups[&l].iter().map(|c| c.core_data.essential.id).collect() };
    assert_eq!(at(2), vec![1, 3]);
    assert_eq!(at(0), vec![2]);
    assert_eq!(at(-1), vec![4]);
    assert!(order_list_by_level(vec![]).is_empty());
}

fn sorted(mut v: Vec<String>) -> Vec<String> {
    v.sort();
    v
}

#[test]
fn level_filters_are_widened_for_variants() {
    let filters = vec![
        (CreatureFilter::Family, vec!["Goblin".to_string()]),
        (CreatureFilter::Level, vec!["3".to_string(), "x".to_string(), "4".to_string()]),
    ];
    let out = prepare_filters_for_db_communication(filters.clone(), true, true);
    assert_eq!(out.len(), 2);
    assert_eq!(out[0], (CreatureFilter::Family, vec!["Goblin".to_string()]));
    assert_eq!(out[1].0, CreatureFilter::Level);
    assert_eq!(sorted(out[1].1.clone()), vec!["2", "3", "4", "5"]);

    let out = prepare_filters_for_db_communication(filters.clone(), false, false);
    assert_eq!(sorted(out[1].1.clone()), vec!["3", "4"]);

    let out = prepare_filters_for_db_communication(
        vec![(CreatureFilter::Level, vec!["-1".to_string()])],
        false,
        true,
    );
    assert_eq!(sorted(out[0].1.clone()), vec!["-1", "-2"]);
}

#[test]
fn level_values_are_read_as_signed_integers() {
    let texts = ["+7", "-0", "9223372036854775807", "99999999999999999999", "7a", "-", ""];
    let out = prepare_filters_for_db_communication(
        vec![(CreatureFilter::Level, texts.iter().map(|t| t.to_string()).collect())],
        false,
        true,
    );
    assert_eq!(
        sorted(out[0].1.clone()),
        vec!["-1", "0", "6", "7", "9223372036854775806", "9223372036854775807"]
    );
    let out = prepare_filters_for_db_communication(
        vec![(CreatureFilter::Level, vec!["-9223372036854775808".to_string()])],
        true,
        false,
    );
    assert_eq!(sorted(out[0].1.clone()), vec!["-9223372036854775807", "-9223372036854775808"]);
}

#[test]
fn runtime_values_list_each_value_once_in_order() {
    let mut a = flat_creature(7, "Goblin Warrior", "Goblin", 6, -1, true);
    a.core_data.traits = vec!["Goblin".to_string(), "Humanoid".to_string()];
    let mut b = flat_creature(8, "Ogre", "Giant", 50, 3, true);
    b.core_data.traits = vec!["Giant".to_string(), "Humanoid".to_string()];
    b.core_data.essential.size = SizeEnum::Large;
    let mut c = flat_creature(9, "Goblin Archer", "Goblin", 8, -1, false);
    c.core_data.essential.rarity = RarityEnum::Uncommon;
    let values = runtime_fields_values_of(&vec![a, b, c]);
    assert_eq!(values.list_of_ids, vec!["7", "8", "9"]);
    assert_eq!(values.list_of_levels, vec!["-1", "3"]);
    assert_eq!(values.list_of_families, vec!["Goblin", "Giant"]);
    assert_eq!(values.list_of_traits, vec!["Goblin", "Humanoid", "Giant"]);
    assert_eq!(values.list_of_sources, vec!["Bestiary"]);
    assert_eq!(values.list_of_alignments, vec!["N"]);
    assert_eq!(values.list_of_sizes, vec!["Medium", "Large"]);
    assert_eq!(values.list_of_rarities, vec!["Common", "Uncommon"]);
    assert_eq!(values.list_of_creature_types, vec!["Monster"]);
    assert_eq!(runtime_fields_values_of(&vec![]), Default::default());
}

#[test]
fn filter_values_are_computed_once_and_then_read_from_the_cache() {
    let a = flat_creature(7, "Goblin Warrior", "Goblin", 6, -1, true);
    let b = flat_creature(8, "Ogre", "Giant", 50, 3, true);
    let mut cache = None;
    let first = from_db_data_to_filter_cache(&mut cache, &vec![a.clone()]);
    assert_eq!(first.list_of_ids, vec!["7"]);
    assert_eq!(cache, Some(first.clone()));
    // The cache answers from now on, whatever creatures are handed in.
    let second = from_db_data_to_filter_cache(&mut cache, &vec![a, b]);
    assert_eq!(second, first);
    assert_eq!(cache, Some(first));
}

#[test]
fn flat_variants_shift_level_hit_points_and_link() {
    let mut c = flat_creature(3, "Ogre", "Giant", 50, 3, true);
    c.core_data.derived.archive_link = Some("https://2e.aonprd.com/Monsters.aspx?ID=3".to_string());
    let elite = db_proxy::convert_creature_to_variant(c.clone(), 1);
    assert_eq!(elite.variant_data.level, 4);
    assert_eq!(elite.core_data.essential.hp, 65);
    assert_eq!(
        elite.variant_data.archive_link,
        Some("https://2e.aonprd.com/Monsters.aspx?ID=3&Elite=true".to_string())
    );
    let weak = db_proxy::convert_creature_to_variant(c.clone(), -1);
    assert_eq!(weak.variant_data.level, 2);
    assert_eq!(weak.core_data.essential.hp, 35);
    assert_eq!(
        weak.variant_data.archive_link,
        Some("https://2e.aonprd.com/Monsters.aspx?ID=3&Weak=true".to_string())
    );
    let base = db_proxy::convert_creature_to_variant(c.clone(), 0);
    assert_eq!(base.core_data.essential.hp, 50);
    assert_eq!(base.variant_data.archive_link, None);

    let tiny = flat_creature(1, "Goblin Warrior", "Goblin", 6, 20, true);
    assert_eq!(db_proxy::convert_creature_to_variant(tiny.clone(), 1).core_data.essential.hp, 36);
    let low = flat_creature(1, "Rat", "Animal", 6, 1, true);
    assert_eq!(db_proxy::convert_creature_to_variant(low, -1).core_data.essential.hp, 1);
    assert_eq!(db_proxy::hp_increase_by_level(), vec![(1, 10), (2, 15), (5, 20), (20, 30)]);
}

#[test]
fn key_value_filters_keep_matching_creatures() {
    let ids_of = |v: &[Creature]| -> Vec<i64> { v.iter().map(|c| c.core_data.essential.id).collect() };
    let levels = vec!["-1".to_string(), "3".to_string()];
    let kept = db_proxy::fetch_creatures_passing_single_filter(list(), CreatureFilter::Level, &levels);
    assert_eq!(ids_of(&kept), vec![1, 3]);
    let melee = vec!["true".to_string()];
    let kept = db_proxy::fetch_creatures_passing_single_filter(list(), CreatureFilter::Melee, &melee);
    assert_eq!(ids_of(&kept), vec![1, 3, 4, 5]);
    let kept = db_proxy::fetch_creatures_passing_single_filter(list(), CreatureFilter::CreatureRoles, &melee);
    assert!(kept.is_empty());

    let mut with_traits = list();
    with_traits[2].core_data.traits = vec!["Giant".to_string(), "Humanoid".to_string()];
    let wanted = vec!["Dragon".to_string(), "Giant".to_string()];
    let kept = db_proxy::fetch_creatures_passing_single_filter(with_traits, CreatureFilter::Traits, &wanted);
    assert_eq!(ids_of(&kept), vec![3]);

    let filters = vec![
        (CreatureFilter::Family, vec!["Goblin".to_string()]),
        (CreatureFilter::Ranged, vec!["false".to_string()]),
    ];
    let kept = db_proxy::fetch_creatures_passing_all_filters(list(), &filters);
    assert_eq!(ids_of(&kept), vec![1, 4]);
    assert_eq!(ids_of(&db_proxy::fetch_creatures_passing_all_filters(list(), &vec![])), vec![1, 2, 3, 4, 5]);
    let kept = db_proxy::fetch_creatures_passing_all_filters(
        list(),
        &vec![(CreatureFilter::Size, vec!["Medium".to_string()]), (CreatureFilter::Alignment, vec!["N".to_string()])],
    );
    assert_eq!(kept.len(), 5);
}

#[test]
fn flat_lookup_grouping_and_keys() {
    assert_eq!(db_proxy::creature_with_id(list(), 4).map(|c| c.core_data.essential.name), Some("Goblin Boss".to_string()));
    assert!(db_proxy::creature_with_id(list(), 42).is_none());

    let groups = db_proxy::order_list_by_level(list());
    assert_eq!(groups.len(), 5);
    assert_eq!(groups[&-1].len(), 1);
    assert_eq!(groups[&7][0].core_data.essential.id, 5);

    let values = runtime_fields_values_of(&list());
    assert_eq!(db_proxy::keys_of_field(&values, CreatureField::Family), vec!["Giant", "Goblin"]);
    assert_eq!(db_proxy::keys_of_field(&values, CreatureField::Level), vec!["-1", "0", "1", "3", "7"]);
    assert_eq!(db_proxy::keys_of_field(&values, CreatureField::Melee), vec!["false", "true"]);
    assert!(db_proxy::keys_of_field(&values, CreatureField::Hp).is_empty());
    assert_eq!(db_proxy::keys_of_field(&values, CreatureField::Id), vec!["1", "2", "3", "4", "5"]);
}

#[test]
fn weapon_types_tell_melee_from_ranged() {
    let types = vec!["Melee".to_string(), "generic".to_string()];
    assert!(is_melee(&types));
    assert!(!is_ranged(&types));
    assert!(is_ranged(&vec!["RANGED".to_string()]));
    assert!(!is_melee(&vec![]));
}

#[test]
fn fetched_field_values_carry_every_alignment() {
    let v = CacheValues::from_fetched(
        vec!["1".to_string()],
        vec!["Goblin".to_string()],
        vec![],
        vec!["Bestiary".to_string()],
        vec!["Small".to_string()],
        vec!["Common".to_string()],
        vec!["Monster".to_string()],
    );
    assert_eq!(v.list_of_alignments, vec!["CE", "CN", "CG", "NE", "N", "NG", "LE", "LN", "LG", "No Alignment", "Any"]);
    assert_eq!(v.list_of_families, vec!["Goblin"]);
    assert!(v.list_of_traits.is_empty());
}

#[test]
fn flat_variant_hit_points_and_links() {
    let mut c = flat_creature(3, "Ogre", "Giant", 50, 3, true);
    c.core_data.derived.archive_link = Some("https://2e.aonprd.com/Monsters.aspx?ID=3".to_string());
    let (hp, link) = FlatVariant::Elite.get_variant_hp_and_link(&c.core_data);
    assert_eq!(hp, 65);
    assert_eq!(link, Some("https://2e.aonprd.com/Monsters.aspx?ID=3&Elite=true".to_string()));
    let (hp, link) = FlatVariant::Weak.get_variant_hp_and_link(&c.core_data);
    assert_eq!(hp, 35);
    assert_eq!(link, Some("https://2e.aonprd.com/Monsters.aspx?ID=3&Weak=true".to_string()));
    let (hp, link) = FlatVariant::Base.get_variant_hp_and_link(&c.core_data);
    assert_eq!(hp, 50);
    assert_eq!(link, Some("https://2e.aonprd.com/Monsters.aspx?ID=3".to_string()));
    let rat = flat_creature(4, "Rat", "Animal", 5, 0, true);
    assert_eq!(FlatVariant::Weak.get_variant_hp_and_link(&rat.core_data).0, 1);
    assert_eq!(FlatVariant::Elite.to_level_delta(), 1);
    assert_eq!(FlatVariant::Weak.to_string(), "Weak");
}

#[test]
fn flat_names_and_defaults() {
    assert_eq!(CreatureRole::MagicalStriker.to_string(), "\"Magical Striker\"");
    assert_eq!(CreatureFilter::Melee.to_string(), "is_melee");
    assert_eq!(CreatureTableFieldsFilter::default_lower_threshold(), 50);
    assert_eq!(CreatureTableFieldsFilter::default_upper_threshold(), 100);
    let v = CreatureVariantData::from_level_and_link(300, None);
    assert_eq!(v.level, 44);
}
