use bybe::db::data_providers::generic_fetcher::enrich_with_traits;
use bybe::db::data_providers::creature_fetcher::{fetch_all_creature_traits, traits_by_creature};

fn rows() -> Vec<(i64, String)> {
    vec![
        (2, "Goblin".to_string()),
        (1, "Dragon".to_string()),
        (2, "Evil".to_string()),
        (1, "Fire".to_string()),
        (2, "Humanoid".to_string()),
        (3, "lawful".to_string()),
    ]
}

#[test]
fn trait_rows_are_grouped_by_creature_in_order() {
    let m = traits_by_creature(rows());
    assert_eq!(m.len(), 3);
    assert_eq!(m[&1], vec!["Dragon", "Fire"]);
    assert_eq!(m[&2], vec!["Goblin", "Evil", "Humanoid"]);
    assert_eq!(m[&3], vec!["lawful"]);
    assert!(traits_by_creature(vec![]).is_empty());
}

#[test]
fn alignment_traits_are_dropped_before_grouping() {
    let m = fetch_all_creature_traits(rows());
    assert_eq!(m.len(), 2);
    assert_eq!(m[&1], vec!["Dragon", "Fire"]);
    assert_eq!(m[&2], vec!["Goblin", "Humanoid"]);
    assert!(!m.contains_key(&3));
}

#[test]
fn entities_get_the_traits_fetched_for_their_id() {
    let mut by_id = std::collections::HashMap::new();
    by_id.insert(1, vec!["Good".to_string(), "Fire".to_string(), "lawful".to_string()]);
    by_id.insert(2, vec!["Cold".to_string()]);
    let ids = vec![2, 3, 1];
    let filtered = enrich_with_traits(&ids, &by_id, true);
    assert_eq!(filtered, vec![vec!["Cold".to_string()], vec![], vec!["Fire".to_string()]]);
    let kept = enrich_with_traits(&ids, &by_id, false);
    assert_eq!(kept[2], vec!["Good", "Fire", "lawful"]);
    assert!(enrich_with_traits(&vec![], &by_id, true).is_empty());
}
