use bybe::db::bestiary_proxy::{
    creatures_from_fetched_cores, possible_values_of_filter, prepare_level_filter_for_db_communication,
};
use bybe::models::creature::creature_component::creature_core::{CreatureCoreData, DerivedData, EssentialData};
use bybe::models::creature::creature_field_filter::CreatureFieldFilters;
use bybe::models::creature::creature_filter_enum::{CreatureFilter, FieldsUniqueValuesStruct};
use bybe::models::creature::creature_metadata::creature_role::CreatureRoleEnum;
use bybe::models::creature::creature_metadata::type_enum::CreatureTypeEnum;
use bybe::models::creature::creature_metadata::variant_enum::CreatureVariant;
use bybe::models::creature::creature_struct::Creature;
use bybe::models::creature_metadata::alignment_enum::AlignmentEnum;
use bybe::models::creature_metadata::rarity_enum::RarityEnum;
use bybe::models::creature_metadata::size_enum::SizeEnum;
use bybe::models::shared::pf_version_enum::GameSystemVersionEnum;

fn core_of(id: i64, name: &str, level: i64, hp: i64) -> CreatureCoreData {
    CreatureCoreData {
        essential: EssentialData {
            id,
            aon_id: Some(id),
            name: name.to_string(),
            hp,
            base_level: level,
            size: SizeEnum::Medium,
            family: "Goblin".to_string(),
            rarity: RarityEnum::Common,
            license: "OGL".to_string(),
            remaster: false,
            source: "Bestiary".to_string(),
            cr_type: CreatureTypeEnum::Monster,
            alignment: AlignmentEnum::Ne,
            focus_points: 0,
            status: "valid".to_string(),
        },
        derived: DerivedData::new(
            Some((id, CreatureTypeEnum::Monster)),
            vec![("melee".to_string(), true), ("ranged".to_string(), false)],
            vec![("brute".to_string(), 70), ("sniper".to_string(), 10)],
        ),
        traits: vec!["Goblin".to_string(), "Humanoid".to_string()],
    }
}

fn no_filters() -> CreatureFieldFilters {
    CreatureFieldFilters {
        name_filter: None,
        source_filter: None,
        family_filter: None,
        rarity_filter: None,
        size_filter: None,
        alignment_filter: None,
        trait_whitelist_filter: None,
        trait_blacklist_filter: None,
        role_filter: None,
        type_filter: None,
        role_threshold: None,
        min_hp_filter: None,
        max_hp_filter: None,
        min_level_filter: None,
        max_level_filter: None,
        attack_data_filter: None,
        game_system_version: None,
    }
}

fn unique_values() -> FieldsUniqueValuesStruct {
    FieldsUniqueValuesStruct {
        list_of_levels: vec!["2".to_string(), "10".to_string(), "-1".to_string()],
        list_of_families: vec!["Goblin".to_string(), "Dragon".to_string()],
        list_of_traits: vec!["undead".to_string(), "Fire".to_string()],
        list_of_sources: vec!["Bestiary".to_string()],
        list_of_sizes: vec!["Tiny".to_string(), "Huge".to_string()],
        list_of_rarities: vec!["Rare".to_string(), "Common".to_string()],
    }
}

#[test]
fn level_filter_widens_for_variants() {
    assert_eq!(prepare_level_filter_for_db_communication(&vec![1, 3], true, true), vec![0, 1, 2, 3, 4]);
    assert_eq!(prepare_level_filter_for_db_communication(&vec![5], false, false), vec![5]);
    assert_eq!(prepare_level_filter_for_db_communication(&vec![3, 1, 3], false, true), vec![0, 1, 2, 3]);
    assert_eq!(prepare_level_filter_for_db_communication(&vec![3, 1], true, false), vec![1, 2, 3, 4]);
    assert_eq!(prepare_level_filter_for_db_communication(&vec![], true, true), Vec::<i64>::new());
}

#[test]
fn possible_values_are_sorted() {
    let v = unique_values();
    assert_eq!(possible_values_of_filter(&v, CreatureFilter::Level), vec!["-1", "10", "2"]);
    assert_eq!(possible_values_of_filter(&v, CreatureFilter::Family), vec!["Dragon", "Goblin"]);
    assert_eq!(possible_values_of_filter(&v, CreatureFilter::Traits), vec!["Fire", "undead"]);
    assert_eq!(possible_values_of_filter(&v, CreatureFilter::Rarity), vec!["Common", "Rare"]);
    assert_eq!(possible_values_of_filter(&v, CreatureFilter::Melee), vec!["false", "true"]);
    assert_eq!(possible_values_of_filter(&v, CreatureFilter::CreatureTypes), vec!["Monster", "NPC"]);
    assert_eq!(
        possible_values_of_filter(&v, CreatureFilter::Alignment),
        vec!["Any", "CE", "CG", "CN", "LE", "LG", "LN", "N", "NE", "NG", "No Alignment"]
    );
    assert_eq!(
        possible_values_of_filter(&v, CreatureFilter::PathfinderVersion),
        vec!["Any", "Legacy", "Remaster"]
    );
    assert_eq!(possible_values_of_filter(&v, CreatureFilter::CreatureRoles).len(), 7);
}

#[test]
fn fetched_cores_become_base_and_variant_creatures() {
    let cores = vec![core_of(1, "Goblin Warrior", 1, 20), core_of(2, "Hobgoblin", 4, 60)];
    // Creatures of level 2 are wanted: the elite goblin (1 + 1) and the weak hobgoblin
    // are not, as 4 - 1 = 3 is not asked; only the goblin's elite variant qualifies.
    let levels = vec![2];
    let creatures = creatures_from_fetched_cores(&cores, &levels, true, true);
    let kinds: Vec<(i64, CreatureVariant)> =
        creatures.iter().map(|c| (c.core_data.essential.id, c.variant_data.variant)).collect();
    assert_eq!(
        kinds,
        vec![(1, CreatureVariant::Elite), (1, CreatureVariant::Base), (2, CreatureVariant::Base)]
    );
    let elite = &creatures[0];
    assert_eq!(elite.variant_data.level, 2);
    assert_eq!(elite.core_data.essential.hp, 30);
    assert_eq!(
        elite.variant_data.archive_link,
        Some("https://2e.aonprd.com/MONSTERs.aspx?ID=1&Elite=true".to_string())
    );
    let base = &creatures[1];
    assert_eq!(base.core_data.essential.hp, 20);
    assert_eq!(base.variant_data.level, 1);
    assert!(base.extra_data.is_none() && base.combat_data.is_none() && base.spell_caster_data.is_none());
}

#[test]
fn weak_variants_are_made_from_one_level_up() {
    let cores = vec![core_of(3, "Ogre", 3, 50)];
    let creatures = creatures_from_fetched_cores(&cores, &vec![2], true, false);
    assert_eq!(creatures.len(), 2);
    assert_eq!(creatures[0].variant_data.variant, CreatureVariant::Weak);
    assert_eq!(creatures[0].variant_data.level, 2);
    assert_eq!(creatures[0].core_data.essential.hp, 35);
    assert_eq!(creatures[1].variant_data.variant, CreatureVariant::Base);
}

#[test]
fn creature_filters_select_by_every_field() {
    let c = Creature::from_core(core_of(1, "Goblin Warrior", 1, 20));
    let f = no_filters();
    assert!(c.is_passing_filters(&f));

    let mut f = no_filters();
    f.name_filter = Some("WARRIOR".to_string());
    assert!(c.is_passing_filters(&f));
    f.name_filter = Some("boss".to_string());
    assert!(!c.is_passing_filters(&f));

    let mut f = no_filters();
    f.min_level_filter = Some(2);
    assert!(!c.is_passing_filters(&f));
    f.min_level_filter = Some(1);
    f.max_hp_filter = Some(20);
    assert!(c.is_passing_filters(&f));
    f.max_hp_filter = Some(19);
    assert!(!c.is_passing_filters(&f));

    let mut f = no_filters();
    f.trait_whitelist_filter = Some(vec!["humanoid".to_string()]);
    assert!(c.is_passing_filters(&f));
    let mut f = no_filters();
    f.trait_blacklist_filter = Some(vec!["GOBLIN".to_string()]);
    assert!(!c.is_passing_filters(&f));

    let mut f = no_filters();
    f.role_filter = Some(vec![CreatureRoleEnum::Sniper, CreatureRoleEnum::Brute]);
    f.role_threshold = Some(50);
    assert!(c.is_passing_filters(&f));
    f.role_filter = Some(vec![CreatureRoleEnum::Sniper]);
    assert!(!c.is_passing_filters(&f));

    let mut f = no_filters();
    f.attack_data_filter = Some(vec![("melee".to_string(), Some(true)), ("ranged".to_string(), None)]);
    assert!(c.is_passing_filters(&f));
    f.attack_data_filter = Some(vec![("ranged".to_string(), Some(true))]);
    assert!(!c.is_passing_filters(&f));

    let mut f = no_filters();
    f.game_system_version = Some(GameSystemVersionEnum::Remaster);
    assert!(!c.is_passing_filters(&f));
    f.game_system_version = Some(GameSystemVersionEnum::Legacy);
    f.rarity_filter = Some(vec![RarityEnum::Common, RarityEnum::Rare]);
    f.size_filter = Some(vec![SizeEnum::Medium]);
    f.alignment_filter = Some(vec![AlignmentEnum::Ne]);
    f.type_filter = Some(vec![CreatureTypeEnum::Monster]);
    assert!(c.is_passing_filters(&f));
    f.type_filter = Some(vec![CreatureTypeEnum::Npc]);
    assert!(!c.is_passing_filters(&f));
}

#[test]
fn derived_archive_link_follows_the_creature_type() {
    let d = DerivedData::new(Some((7, CreatureTypeEnum::Npc)), vec![], vec![]);
    assert_eq!(d.archive_link, Some("https://2e.aonprd.com/NPCs.aspx?ID=7".to_string()));
    let d = DerivedData::new(None, vec![], vec![]);
    assert_eq!(d.archive_link, None);
}

#[test]
fn variant_conversion_keeps_the_core_for_the_base_creature() {
    let c = Creature::from_core(core_of(4, "Kobold", 0, 12));
    let base = c.clone().convert_creature_to_variant(CreatureVariant::Base);
    assert_eq!(base.core_data.essential.hp, 12);
    assert_eq!(base.variant_data.level, 0);
    let elite = c.convert_creature_to_variant(CreatureVariant::Elite);
    assert_eq!(elite.variant_data.level, 2);
    assert_eq!(elite.core_data.essential.hp, 22);
    assert_eq!(elite.variant_data.variant, CreatureVariant::Elite);
}
