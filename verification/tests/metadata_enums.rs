use bybe::models::creature::creature_metadata::type_enum::CreatureTypeEnum as NewTypeEnum;
use bybe::models::creature::creature_metadata::variant_enum::CreatureVariant as NewVariant;
use bybe::models::creature_metadata::alignment_enum::{without_alignment_traits, AlignmentEnum};
use bybe::models::creature_metadata::rarity_enum::RarityEnum;
use bybe::models::creature_metadata::size_enum::SizeEnum;
use bybe::models::creature_metadata::type_enum::CreatureTypeEnum;
use bybe::models::creature_metadata_enums as flat;
use bybe::services::url_calculator::add_boolean_query;

#[test]
fn alignment_parses_in_any_case() {
    assert_eq!(AlignmentEnum::from_str("ce"), Ok(AlignmentEnum::Ce));
    assert_eq!(AlignmentEnum::from_str("Lg"), Ok(AlignmentEnum::Lg));
    assert_eq!(AlignmentEnum::from_str("any"), Ok(AlignmentEnum::Any));
    assert_eq!(AlignmentEnum::from_str("whatever"), Ok(AlignmentEnum::No));
    assert_eq!(AlignmentEnum::from_string(&"n".to_string()), AlignmentEnum::N);
}

#[test]
fn alignment_text_round_trip() {
    for a in [
        AlignmentEnum::Ce,
        AlignmentEnum::Cn,
        AlignmentEnum::Cg,
        AlignmentEnum::Ne,
        AlignmentEnum::N,
        AlignmentEnum::Ng,
        AlignmentEnum::Le,
        AlignmentEnum::Ln,
        AlignmentEnum::Lg,
        AlignmentEnum::Any,
    ] {
        assert_eq!(AlignmentEnum::from_str(a.to_string().as_str()), Ok(a));
    }
}

#[test]
fn alignment_from_traits_reads_good_evil_chaotic_lawful() {
    let traits = vec!["Chaotic".to_string(), "evil".to_string(), "Demon".to_string()];
    assert_eq!(AlignmentEnum::from_traits(&traits, false), AlignmentEnum::Ce);
    let traits = vec!["LAWFUL".to_string(), "good".to_string()];
    assert_eq!(AlignmentEnum::from_traits(&traits, false), AlignmentEnum::Lg);
    let traits = vec!["Lawful".to_string()];
    assert_eq!(AlignmentEnum::from_traits(&traits, false), AlignmentEnum::Ln);
    let traits: Vec<String> = vec!["Undead".to_string()];
    assert_eq!(AlignmentEnum::from_traits(&traits, false), AlignmentEnum::N);
    let traits = vec!["Chaotic".to_string(), "Evil".to_string()];
    assert_eq!(AlignmentEnum::from_traits(&traits, true), AlignmentEnum::No);
}

#[test]
fn rarity_and_size_parse_and_fail() {
    assert_eq!(RarityEnum::from_str("uncommon"), Ok(RarityEnum::Uncommon));
    assert_eq!(RarityEnum::from_str("UNIQUE"), Ok(RarityEnum::Unique));
    assert_eq!(RarityEnum::from_str("legendary"), Err(()));
    assert_eq!(RarityEnum::from_string("legendary".to_string()), RarityEnum::Common);
    assert_eq!(SizeEnum::from_str("Gargantuan"), Ok(SizeEnum::Gargantuan));
    assert_eq!(SizeEnum::from_str("colossal"), Err(()));
    assert_eq!(SizeEnum::from_string("colossal".to_string()), SizeEnum::Medium);
    assert_eq!(RarityEnum::from_str(RarityEnum::Rare.to_string().as_str()), Ok(RarityEnum::Rare));
    assert_eq!(SizeEnum::from_str(SizeEnum::Huge.to_string().as_str()), Ok(SizeEnum::Huge));
}

#[test]
fn creature_type_parsing_and_urls() {
    assert_eq!(CreatureTypeEnum::from_str("npc"), Ok(CreatureTypeEnum::Npc));
    assert_eq!(CreatureTypeEnum::from_str("Dragon"), Ok(CreatureTypeEnum::Monster));
    assert_eq!(CreatureTypeEnum::from_opt_string(None), CreatureTypeEnum::Monster);
    assert_eq!(CreatureTypeEnum::Npc.to_url_string(), "NPCs");
    assert_eq!(CreatureTypeEnum::Monster.to_string(), "Monster");
    assert_eq!(NewTypeEnum::from_str("NPC"), Ok(NewTypeEnum::Npc));
    assert_eq!(NewTypeEnum::from_opt_string(Some("npc".to_string())), NewTypeEnum::Npc);
    assert_eq!(NewTypeEnum::from_string("monster".to_string()), NewTypeEnum::Monster);
}

#[test]
fn flat_enums_parse_exact_names_only() {
    assert_eq!(flat::RarityEnum::from_str("rare"), Ok(flat::RarityEnum::Rare));
    assert_eq!(flat::RarityEnum::from_str("Rare"), Err(()));
    assert_eq!(flat::SizeEnum::from_str("TINY"), Ok(flat::SizeEnum::Tiny));
    assert_eq!(flat::SizeEnum::from_str("Tiny"), Err(()));
    assert_eq!(flat::CreatureTypeEnum::from_str("Npc"), Ok(flat::CreatureTypeEnum::Npc));
    assert_eq!(flat::CreatureTypeEnum::from_str("NpC"), Ok(flat::CreatureTypeEnum::Monster));
    assert_eq!(flat::AlignmentEnum::from_str("cg"), Ok(flat::AlignmentEnum::Cg));
    assert_eq!(flat::AlignmentEnum::from_str("chaotic"), Ok(flat::AlignmentEnum::No));
}

#[test]
fn flat_variant_deltas_and_cache_slots() {
    assert_eq!(flat::creature_variant_to_level_delta(flat::CreatureVariant::Weak), -1);
    assert_eq!(flat::creature_variant_to_level_delta(flat::CreatureVariant::Elite), 1);
    assert_eq!(flat::creature_variant_to_level_delta(flat::CreatureVariant::Base), 0);
    assert_eq!(flat::creature_variant_to_cache_index(flat::CreatureVariant::Base), 0);
    assert_eq!(flat::creature_variant_to_cache_index(flat::CreatureVariant::Weak), 1);
    assert_eq!(flat::creature_variant_to_cache_index(flat::CreatureVariant::Elite), 2);
    assert_eq!(flat::creature_type_to_url_string(&flat::CreatureTypeEnum::Monster), "Monsters");
    assert_eq!(flat::creature_type_to_url_string(&flat::CreatureTypeEnum::Npc), "NPCs");
}

#[test]
fn variant_levels_shift_by_one_or_two() {
    assert_eq!(NewVariant::Weak.get_variant_level(5), 4);
    assert_eq!(NewVariant::Weak.get_variant_level(1), -1);
    assert_eq!(NewVariant::Elite.get_variant_level(-1), 1);
    assert_eq!(NewVariant::Elite.get_variant_level(0), 2);
    assert_eq!(NewVariant::Elite.get_variant_level(7), 8);
    assert_eq!(NewVariant::Base.get_variant_level(7), 7);
}

#[test]
fn variant_hit_points_follow_the_table() {
    assert_eq!(NewVariant::Elite.get_variant_hp(20, 1), 30);
    assert_eq!(NewVariant::Elite.get_variant_hp(20, 2), 35);
    assert_eq!(NewVariant::Elite.get_variant_hp(100, 5), 120);
    assert_eq!(NewVariant::Elite.get_variant_hp(300, 20), 330);
    assert_eq!(NewVariant::Elite.get_variant_hp(5, -1), 15);
    assert_eq!(NewVariant::Weak.get_variant_hp(40, 3), 25);
    assert_eq!(NewVariant::Weak.get_variant_hp(40, 6), 20);
    assert_eq!(NewVariant::Weak.get_variant_hp(400, 21), 370);
    assert_eq!(NewVariant::Weak.get_variant_hp(8, 1), 1);
    assert_eq!(NewVariant::Base.get_variant_hp(8, 1), 8);
}

#[test]
fn variant_adjustments_are_opposite() {
    assert_eq!(NewVariant::Elite.to_adjustment_modifier(), 2);
    assert_eq!(NewVariant::Weak.to_adjustment_modifier(), -2);
    assert_eq!(NewVariant::Base.to_adjustment_modifier(), 0);
    assert_eq!(NewVariant::Elite.to_dmg_adjustment_modifier(true), 4);
    assert_eq!(NewVariant::Weak.to_dmg_adjustment_modifier(true), -4);
    assert_eq!(NewVariant::Weak.to_dmg_adjustment_modifier(false), -2);
}

#[test]
fn variant_archive_links_gain_a_query() {
    let link = Some("https://2e.aonprd.com/Monsters.aspx?ID=1".to_string());
    assert_eq!(
        NewVariant::Elite.get_variant_archive_link(link.clone()),
        Some("https://2e.aonprd.com/Monsters.aspx?ID=1&Elite=true".to_string())
    );
    assert_eq!(
        NewVariant::Weak.get_variant_archive_link(link.clone()),
        Some("https://2e.aonprd.com/Monsters.aspx?ID=1&Weak=true".to_string())
    );
    assert_eq!(NewVariant::Base.get_variant_archive_link(link.clone()), link);
    assert_eq!(NewVariant::Elite.get_variant_archive_link(None), None);
    assert_eq!(NewVariant::Weak.to_string(), "Weak");
}

#[test]
fn boolean_query_is_appended() {
    let url = "a?x=1".to_string();
    assert_eq!(add_boolean_query(Some(&url), "k", false), Some("a?x=1&k=false".to_string()));
    assert_eq!(add_boolean_query(None, "k", true), None);
}

#[test]
fn alignment_traits_are_left_out() {
    let traits = vec![
        "Chaotic".to_string(),
        "Goblin".to_string(),
        "evil".to_string(),
        "Humanoid".to_string(),
        "Good-natured".to_string(),
    ];
    assert_eq!(
        without_alignment_traits(&traits),
        vec!["Goblin".to_string(), "Humanoid".to_string(), "Good-natured".to_string()]
    );
    assert!(without_alignment_traits(&vec![]).is_empty());
}
