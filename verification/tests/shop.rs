use bybe::db::data_providers::shop_fetcher::shop_items_from_drawn;
use bybe::models::creature_metadata::rarity_enum::RarityEnum;
use bybe::models::creature_metadata::size_enum::SizeEnum;
use bybe::models::item::item_metadata::type_enum::ItemTypeEnum;
use bybe::models::item::item_struct::Item;
use bybe::models::item::shop_structs::{ItemTableFieldsFilter, ShopFilterQuery};

fn item(id: i64, t: ItemTypeEnum) -> Item {
    Item {
        id,
        name: format!("item {}", id),
        level: 1,
        price: 10 * id,
        rarity: RarityEnum::Common,
        size: SizeEnum::Medium,
        item_type: t,
        source: "Core".to_string(),
        remaster: true,
        traits: vec!["Magical".to_string()],
        quantity: 1,
    }
}

fn query(equipment: i64, consumables: i64, weapons: i64, armors: i64, shields: i64) -> ShopFilterQuery {
    ShopFilterQuery {
        item_table_fields_filter: ItemTableFieldsFilter {
            supported_version: vec![],
            size_filter: vec![],
            type_filter: vec![],
            category_filter: vec![],
            rarity_filter: vec![],
            source_filter: vec![],
            min_level: 0,
            max_level: 20,
        },
        trait_whitelist_filter: vec![],
        trait_blacklist_filter: vec![],
        n_of_equipment: equipment,
        n_of_consumables: consumables,
        n_of_weapons: weapons,
        n_of_armors: armors,
        n_of_shields: shields,
    }
}

fn ids(v: &[Item]) -> Vec<i64> {
    v.iter().map(|i| i.id).collect()
}

#[test]
fn enough_drawn_items_are_kept_as_they_are() {
    let items = vec![item(1, ItemTypeEnum::Weapon), item(2, ItemTypeEnum::Equipment), item(3, ItemTypeEnum::Armor)];
    let out = shop_items_from_drawn(items, &query(1, 0, 1, 1, 0));
    assert_eq!(ids(&out), vec![1, 2, 3]);
}

#[test]
fn short_draws_are_regrouped_by_type_with_copies() {
    let items = vec![
        item(1, ItemTypeEnum::Weapon),
        item(2, ItemTypeEnum::Equipment),
        item(3, ItemTypeEnum::Equipment),
        item(4, ItemTypeEnum::Shield),
    ];
    // Six items are wanted and four came back. Two equipment items against one wished
    // for gain one random copy; the others gain none.
    for _ in 0..20 {
        let out = shop_items_from_drawn(items.clone(), &query(1, 0, 4, 0, 1));
        assert_eq!(out.len(), 5);
        assert_eq!(ids(&out[0..2]), vec![2, 3]);
        assert!(out[2].id == 2 || out[2].id == 3);
        assert_eq!(out[2].item_type, ItemTypeEnum::Equipment);
        assert_eq!(ids(&out[3..5]), vec![1, 4]);
    }
}

#[test]
fn missing_types_stay_empty() {
    let items = vec![item(5, ItemTypeEnum::Consumable)];
    // One consumable against none wished for gains one copy of itself.
    let out = shop_items_from_drawn(items, &query(2, 0, 0, 0, 0));
    assert_eq!(ids(&out), vec![5, 5]);
    let out = shop_items_from_drawn(vec![], &query(1, 1, 1, 1, 1));
    assert!(out.is_empty());
}

#[test]
fn negative_counts_add_copies_beyond_the_count() {
    // One weapon against minus one wished for gains two copies; the armor count is
    // negative too, but no armor came back, so nothing is copied.
    let items = vec![item(6, ItemTypeEnum::Weapon)];
    let out = shop_items_from_drawn(items, &query(3, 0, -1, -1, 1));
    assert_eq!(ids(&out), vec![6, 6, 6]);
    assert!(out.iter().all(|i| i.item_type == ItemTypeEnum::Weapon));
}
