use bybe::db::data_providers::raw_query_builder::{
    format_pagination_clause, prepare_count_creatures_listing, prepare_count_hazards_listing,
    prepare_count_items_listing, prepare_filtered_get_creatures_core, prepare_filtered_get_hazards,
    prepare_filtered_get_items, prepare_paginated_get_creatures_listing, prepare_paginated_get_hazards_listing,
    prepare_paginated_get_items_listing,
};
use bybe::models::bestiary_structs::{BestiaryFilterQuery, CreatureSortEnum, CreatureTableFieldsFilter};
use bybe::models::creature::creature_field_filter::CreatureFieldFilters;
use bybe::models::creature::creature_metadata::creature_role::CreatureRoleEnum;
use bybe::models::creature_metadata::rarity_enum::RarityEnum;
use bybe::models::creature_metadata::size_enum::SizeEnum;
use bybe::models::creature_sort_enums::OrderEnum;
use bybe::models::hazard::hazard_field_filter::{HazardComplexityEnum, HazardFieldFilters};
use bybe::models::hazard::hazard_listing_struct::{HazardFilterQuery, HazardSortEnum, HazardTableFieldsFilter};
use bybe::models::item::item_field_filter::ItemFieldFilters;
use bybe::models::item::item_metadata::type_enum::ItemTypeEnum;
use bybe::models::item::shop_structs::{ItemSortEnum, ItemTableFieldsFilter, ShopFilterQuery};
use bybe::models::shared::game_system_enum::GameSystem;
use bybe::models::shared::pf_version_enum::GameSystemVersionEnum;

fn no_creature_filters() -> CreatureFieldFilters {
    CreatureFieldFilters {
        name_filter: None,
        source_filter: None,
        family_filter: None,
        rarity_filter: None,
        size_filter: None,
        alignment_filter: None,
        trait_whitelist_filter: None,
        trait_blacklist_filter: None,
        role_filter: None,
        type_filter: None,
        role_threshold: None,
        min_hp_filter: None,
        max_hp_filter: None,
        min_level_filter: None,
        max_level_filter: None,
        attack_data_filter: None,
        game_system_version: None,
    }
}

fn no_hazard_filters() -> HazardFieldFilters {
    HazardFieldFilters {
        name_filter: None,
        source_filter: None,
        rarity_filter: None,
        size_filter: None,
        complexity_filter: None,
        min_ac_filter: None,
        max_ac_filter: None,
        min_hardness_filter: None,
        max_hardness_filter: None,
        min_hp_filter: None,
        max_hp_filter: None,
        min_level_filter: None,
        max_level_filter: None,
        min_stealth_filter: None,
        max_stealth_filter: None,
        min_will_filter: None,
        max_will_filter: None,
        min_reflex_filter: None,
        max_reflex_filter: None,
        min_fortitude_filter: None,
        max_fortitude_filter: None,
        game_system_version: None,
        trait_whitelist_filter: None,
        trait_blacklist_filter: None,
    }
}

fn no_item_filters() -> ItemFieldFilters {
    ItemFieldFilters {
        name_filter: None,
        category_filter: None,
        source_filter: None,
        rarity_filter: None,
        size_filter: None,
        type_filter: None,
        min_hp_filter: None,
        max_hp_filter: None,
        min_level_filter: None,
        max_level_filter: None,
        min_price_filter: None,
        max_price_filter: None,
        min_hardness_filter: None,
        max_hardness_filter: None,
        min_bulk_filter: None,
        max_bulk_filter: None,
        min_n_of_uses_filter: None,
        max_n_of_uses_filter: None,
        game_system_version: None,
        trait_whitelist_filter: None,
        trait_blacklist_filter: None,
    }
}

#[test]
fn pagination_clause_with_and_without_limit() {
    assert_eq!(format_pagination_clause(10, 20), "LIMIT 20 OFFSET 10");
    assert_eq!(format_pagination_clause(5, -1), "LIMIT ALL OFFSET 5");
    assert_eq!(format_pagination_clause(0, 0), "LIMIT 0 OFFSET 0");
}

#[test]
fn listings_without_filters() {
    assert_eq!(
        prepare_count_creatures_listing(GameSystem::Pathfinder, &no_creature_filters()),
        "SELECT COUNT(*) FROM pf_creature_core WHERE status = 'valid'"
    );
    assert_eq!(
        prepare_count_hazards_listing(GameSystem::Starfinder, &no_hazard_filters()),
        "SELECT COUNT(*) FROM sf_hazard_table WHERE TRUE"
    );
    assert_eq!(
        prepare_count_items_listing(GameSystem::Pathfinder, &no_item_filters()),
        "SELECT COUNT(*) FROM pf_item_table WHERE is_derived = false AND status = 'valid'"
    );
}

#[test]
fn creature_listing_escapes_names_and_lists_rarities() {
    let mut f = no_creature_filters();
    f.name_filter = Some("O'Neil".to_string());
    f.rarity_filter = Some(vec![RarityEnum::Common, RarityEnum::Rare]);
    f.min_level_filter = Some(1);
    let where_clause =
        "status = 'valid' AND name ILIKE '%O''Neil%' AND UPPER(rarity) IN (UPPER('Common'),UPPER('Rare')) AND level >= 1";
    assert_eq!(
        prepare_paginated_get_creatures_listing(
            GameSystem::Pathfinder,
            &f,
            CreatureSortEnum::Name,
            OrderEnum::Ascending,
            0,
            10
        ),
        format!("SELECT * FROM pf_creature_core WHERE {where_clause} ORDER BY name ASC LIMIT 10 OFFSET 0")
    );
    assert_eq!(
        prepare_count_creatures_listing(GameSystem::Pathfinder, &f),
        format!("SELECT COUNT(*) FROM pf_creature_core WHERE {where_clause}")
    );
}

#[test]
fn creature_listing_attacks_roles_versions_and_traits() {
    let mut f = no_creature_filters();
    f.attack_data_filter = Some(vec![
        ("flying".to_string(), Some(true)),
        ("melee".to_string(), Some(true)),
        ("ranged".to_string(), None),
        ("spellcaster".to_string(), Some(false)),
    ]);
    f.role_filter = Some(vec![CreatureRoleEnum::Brute, CreatureRoleEnum::Sniper]);
    f.game_system_version = Some(GameSystemVersionEnum::Remaster);
    f.trait_whitelist_filter = Some(vec!["fire".to_string()]);
    f.trait_blacklist_filter = Some(vec!["undead".to_string(), "evil".to_string()]);
    f.family_filter = Some(vec!["Dragon".to_string()]);
    let expected = "SELECT COUNT(*) FROM pf_creature_core WHERE status = 'valid' \
        AND (family ILIKE '%Dragon%') \
        AND is_melee = true AND is_spellcaster = false \
        AND (brute_percentage >= 0 OR sniper_percentage >= 0) \
        AND remaster = true \
        AND id IN (SELECT creature_id FROM pf_trait_creature_association_table WHERE UPPER(trait_id) LIKE UPPER('%fire%')) \
        AND id NOT IN (SELECT creature_id FROM pf_trait_creature_association_table WHERE UPPER(trait_id) = UPPER('undead') OR UPPER(trait_id) = UPPER('evil'))";
    assert_eq!(prepare_count_creatures_listing(GameSystem::Pathfinder, &f), expected);
    f.role_threshold = Some(40);
    assert!(prepare_count_creatures_listing(GameSystem::Pathfinder, &f)
        .contains("(brute_percentage >= 40 OR sniper_percentage >= 40)"));
}

#[test]
fn creature_listing_orders() {
    let f = no_creature_filters();
    let q = prepare_paginated_get_creatures_listing(
        GameSystem::Pathfinder,
        &f,
        CreatureSortEnum::Attacks,
        OrderEnum::Descending,
        20,
        5,
    );
    assert_eq!(
        q,
        "SELECT * FROM pf_creature_core WHERE status = 'valid' ORDER BY is_melee DESC, is_ranged DESC, is_spellcaster DESC LIMIT 5 OFFSET 20"
    );
    let q = prepare_paginated_get_creatures_listing(
        GameSystem::Pathfinder,
        &f,
        CreatureSortEnum::Roles,
        OrderEnum::Ascending,
        0,
        -1,
    );
    assert!(q.ends_with("spellcaster_percentage) ASC LIMIT ALL OFFSET 0"));
}

#[test]
fn hazard_listing_bounds_and_complexity() {
    let mut f = no_hazard_filters();
    f.complexity_filter = Some(HazardComplexityEnum::Complex);
    f.min_ac_filter = Some(10);
    f.max_will_filter = Some(-3);
    f.size_filter = Some(vec![SizeEnum::Large]);
    let expected = "SELECT * FROM pf_hazard_table WHERE UPPER(size) IN (UPPER('Large')) AND is_complex = true \
        AND ac >= 10 AND (will IS NULL OR will <= -3) ORDER BY will ASC NULLS LAST LIMIT 3 OFFSET 6";
    assert_eq!(
        prepare_paginated_get_hazards_listing(
            GameSystem::Pathfinder,
            &f,
            HazardSortEnum::Will,
            OrderEnum::Ascending,
            6,
            3
        ),
        expected
    );
    f.complexity_filter = Some(HazardComplexityEnum::Any);
    assert!(!prepare_count_hazards_listing(GameSystem::Pathfinder, &f).contains("is_complex"));
}

#[test]
fn item_listing_categories_bulk_and_uses() {
    let mut f = no_item_filters();
    f.category_filter = Some(vec!["Potion".to_string(), "Elixir".to_string()]);
    f.min_bulk_filter = Some("0.5".to_string());
    f.min_n_of_uses_filter = Some(2);
    f.max_n_of_uses_filter = Some(4);
    f.type_filter = Some(vec![ItemTypeEnum::Consumable]);
    let expected = "SELECT * FROM pf_item_table WHERE is_derived = false AND status = 'valid' \
        AND (COALESCE(category, '') ILIKE '%Potion%' OR COALESCE(category, '') ILIKE '%Elixir%') \
        AND UPPER(item_type) IN (UPPER('Consumable')) AND bulk >= 0.5 \
        AND (number_of_uses IS NOT NULL AND number_of_uses >= 2) \
        AND (number_of_uses IS NULL OR number_of_uses <= 4) \
        ORDER BY (SELECT STRING_AGG(trait_id, ', ' ORDER BY trait_id) FROM pf_trait_item_association_table WHERE item_id = id) DESC NULLS LAST LIMIT ALL OFFSET 3";
    assert_eq!(
        prepare_paginated_get_items_listing(
            GameSystem::Pathfinder,
            &f,
            ItemSortEnum::Trait,
            OrderEnum::Descending,
            3,
            -1
        ),
        expected
    );
}

fn creature_table_filter() -> CreatureTableFieldsFilter {
    CreatureTableFieldsFilter {
        source_filter: vec![],
        family_filter: vec![],
        alignment_filter: vec![],
        size_filter: vec![],
        rarity_filter: vec![],
        type_filter: vec![],
        role_filter: vec![CreatureRoleEnum::Soldier],
        role_lower_threshold: 50,
        role_upper_threshold: 100,
        is_melee_filter: vec![true],
        is_ranged_filter: vec![],
        is_spellcaster_filter: vec![],
        supported_version: vec!["true".to_string(), "false".to_string()],
        level_filter: vec![1, 2],
    }
}

#[test]
fn filtered_creatures_core_query() {
    let q = BestiaryFilterQuery {
        creature_table_fields_filter: creature_table_filter(),
        trait_whitelist_filter: vec!["Fire".to_string()],
        trait_blacklist_filter: vec![],
    };
    let where_query = "SELECT id FROM pf_creature_core WHERE status = 'valid' AND remaster IN (true,false) \
        AND is_melee IN (true) AND (soldier_percentage >= 50 AND soldier_percentage <= 100) \
        AND id IN (SELECT tcat.creature_id FROM pf_trait_creature_association_table tcat RIGHT JOIN \
        (SELECT * FROM pf_trait_table tt WHERE UPPER(tt.name) IN (UPPER('Fire'))) jt ON tcat.trait_id = jt.name)";
    let expected = format!(
        "
    WITH CreatureRankedByLevel AS (
        SELECT *, ROW_NUMBER() OVER (PARTITION BY level ORDER BY RANDOM()) AS rn
        FROM pf_creature_core cc WHERE status = 'valid' AND cc.id IN ({where_query})
    )
    SELECT * FROM CreatureRankedByLevel WHERE id IN (
        SELECT id FROM CreatureRankedByLevel WHERE rn>1 ORDER BY RANDOM() LIMIT 20
    )
    UNION ALL
    SELECT * FROM CreatureRankedByLevel WHERE rn=1
    "
    );
    assert_eq!(prepare_filtered_get_creatures_core(GameSystem::Pathfinder, &q), expected);
}

#[test]
fn filtered_hazards_query_without_traits() {
    let q = HazardFilterQuery {
        hazard_table_fields_filter: HazardTableFieldsFilter {
            supported_version: vec!["true".to_string()],
            source_filter: vec![],
            size_filter: vec![],
            rarity_filter: vec![],
            min_ac: Some(12),
            max_ac: None,
            min_hardness: None,
            max_hardness: Some(5),
            min_hp: Some(1),
            max_hp: Some(9),
            min_fortitude: None,
            max_fortitude: None,
            min_reflex: None,
            max_reflex: None,
            min_will: None,
            max_will: None,
            min_stealth: None,
            max_stealth: None,
        },
        trait_whitelist_filter: vec![],
        trait_blacklist_filter: vec![],
    };
    let where_query =
        "SELECT id FROM sf_hazard_table WHERE remaster IN (true) AND ac >= 12 AND hardness <= 5 AND hp >= 1 AND hp <= 9 ";
    let expected = format!(
        "
    WITH HazardRankedByLevel AS (
        SELECT *, ROW_NUMBER() OVER (PARTITION BY level ORDER BY RANDOM()) AS rn
        FROM sf_hazard_table hz WHERE hz.id IN ({where_query})
    )
    SELECT * FROM HazardRankedByLevel WHERE id IN (
        SELECT id FROM HazardRankedByLevel WHERE rn>1 ORDER BY RANDOM() LIMIT 20
    )
    UNION ALL
    SELECT * FROM HazardRankedByLevel WHERE rn=1
    "
    );
    assert_eq!(prepare_filtered_get_hazards(GameSystem::Starfinder, &q), expected);
}

#[test]
fn filtered_items_query_draws_each_type() {
    let q = ShopFilterQuery {
        item_table_fields_filter: ItemTableFieldsFilter {
            supported_version: vec![],
            size_filter: vec![],
            type_filter: vec![],
            category_filter: vec![],
            rarity_filter: vec![],
            source_filter: vec![],
            min_level: 0,
            max_level: 4,
        },
        trait_whitelist_filter: vec![],
        trait_blacklist_filter: vec!["cursed".to_string()],
        n_of_equipment: 1,
        n_of_consumables: 2,
        n_of_weapons: 3,
        n_of_armors: 4,
        n_of_shields: 5,
    };
    let sub = |item_type_query: String, n: i64| {
        format!(
            "SELECT id FROM pf_item_table WHERE  AND (level >= 0 AND level <= 4)
         AND id IN ( {item_type_query} ) AND id NOT IN (SELECT tcat.item_id FROM pf_trait_item_association_table tcat RIGHT JOIN (SELECT * FROM pf_trait_table tt WHERE UPPER(tt.name) IN (UPPER('cursed'))) jt ON tcat.trait_id = jt.name) ORDER BY RANDOM() LIMIT {n}"
        )
    };
    let type_query = |id_field: &str, table: &str, assoc: &str, tass: &str, cond: &str| {
        format!(
            "
        SELECT {id_field} FROM {table} tmain
        LEFT OUTER JOIN {assoc} tass ON tmain.id = tass.{tass}
        WHERE tass.{tass} IS NULL {cond}"
        )
    };
    let equipment = sub(
        type_query(
            "id",
            "pf_item_table",
            "pf_item_creature_association_table",
            "item_id",
            "AND UPPER(item_type) = UPPER('Equipment')",
        ),
        1,
    );
    let consumable = sub(
        type_query(
            "id",
            "pf_item_table",
            "pf_item_creature_association_table",
            "item_id",
            "AND UPPER(item_type) = UPPER('Consumable')",
        ),
        2,
    );
    let weapon = sub(
        type_query("base_item_id", "pf_weapon_table", "pf_weapon_creature_association_table", "weapon_id", ""),
        3,
    );
    let armor = sub(
        type_query("base_item_id", "pf_armor_table", "pf_armor_creature_association_table", "armor_id", ""),
        4,
    );
    let shield = sub(
        type_query("base_item_id", "pf_shield_table", "pf_shield_creature_association_table", "shield_id", ""),
        5,
    );
    let expected = format!(
        "SELECT * FROM pf_item_table WHERE status = 'valid' AND id IN ( {equipment} ) OR id IN ({consumable} )
        OR id IN ({weapon} ) OR id IN ({armor} ) OR id IN ({shield} )"
    );
    assert_eq!(prepare_filtered_get_items(GameSystem::Pathfinder, &q), expected);
}

#[test]
fn hazard_listing_where_is_never_empty() {
    let mut f = no_hazard_filters();
    f.source_filter = Some(vec![]);
    f.trait_whitelist_filter = Some(vec![]);
    let q = prepare_count_hazards_listing(GameSystem::Pathfinder, &f);
    let w = q.strip_prefix("SELECT COUNT(*) FROM pf_hazard_table WHERE ").unwrap();
    assert!(!w.is_empty());
    assert_eq!(w, "TRUE");
    f.min_ac_filter = Some(-3);
    let q = prepare_count_hazards_listing(GameSystem::Pathfinder, &f);
    assert_eq!(q, "SELECT COUNT(*) FROM pf_hazard_table WHERE ac >= -3");
}
