//! What the creature data provider does with the rows it reads: the traits by
//! creature, and the creature of the creature page built from its fetched parts.
use crate::models::creature::creature_component::creature_combat::CreatureCombatData;
use crate::models::creature::creature_component::creature_core::CreatureCoreData;
use crate::models::creature::creature_component::creature_extra::CreatureExtraData;
use crate::models::creature::creature_component::creature_spell_caster::CreatureSpellcasterData;
use crate::models::creature::creature_component::creature_variant::CreatureVariantData;
use crate::models::creature::creature_metadata::variant_enum::CreatureVariant;
use crate::models::creature::creature_struct::{
    core_fits_variant, details_fit_pwl, details_fit_variant, pwl_version_of, variant_version_of, Creature,
};
use crate::models::creature_metadata::alignment_enum::is_alignment_trait;
use crate::text::to_uppercase;
use crate::text::views;
use std::collections::HashMap;
use vstd::prelude::*;

verus! {

broadcast use vstd::std_specs::hash::group_hash_axioms;

/// The trait names of each creature, in the order of the rows.
pub open spec fn traits_by_creature_spec(rows: Seq<(i64, String)>) -> Map<i64, Seq<Seq<char>>>
    decreases rows.len(),
{
    if rows.len() == 0 {
        Map::empty()
    } else {
        let m = traits_by_creature_spec(rows.drop_last());
        let (id, name) = rows.last();
        let group = if m.contains_key(id) { m[id] } else { Seq::empty() };
        m.insert(id, group.push(name@))
    }
}

/// Groups `(creature id, trait name)` rows by creature, keeping the rows' order.
pub fn traits_by_creature(rows: Vec<(i64, String)>) -> (r: HashMap<i64, Vec<String>>)
    ensures
        r@.dom() == traits_by_creature_spec(rows@).dom(),
        forall|id: i64| #[trigger] r@.contains_key(id) ==> views(r@[id]@) == traits_by_creature_spec(rows@)[id],
{
    let ghost all = rows@;
    let mut rest = rows;
    let mut m: HashMap<i64, Vec<String>> = HashMap::new();
    let ghost mut n: int = 0;
    while rest.len() > 0
        invariant
            0 <= n <= all.len(),
            rest@ == all.skip(n),
            m@.dom() == traits_by_creature_spec(all.take(n)).dom(),
            forall|id: i64| #[trigger] m@.contains_key(id) ==> views(m@[id]@) == traits_by_creature_spec(all.take(n))[id],
        decreases rest@.len(),
    {
        let (id, name) = rest.remove(0);
        proof {
            assert(all.take(n + 1).drop_last() =~= all.take(n));
            assert(all.take(n + 1).last() == (id, name));
            assert(rest@ =~= all.skip(n + 1));
        }
        let mut group = match m.remove(&id) {
            Some(g) => g,
            None => Vec::new(),
        };
        let ghost before = group@;
        let ghost nv = name@;
        group.push(name);
        assert(views(group@) =~= views(before).push(nv));
        m.insert(id, group);
        proof {
            n = n + 1;
            let after = traits_by_creature_spec(all.take(n));
            assert(m@.dom() =~= after.dom());
        }
    }
    assert(all.take(n) =~= all);
    m
}

/// The rows whose trait carries no alignment, in order.
pub open spec fn rows_without_alignment(rows: Seq<(i64, String)>) -> Seq<(i64, String)>
    decreases rows.len(),
{
    if rows.len() == 0 {
        Seq::empty()
    } else {
        let rest = rows_without_alignment(rows.drop_last());
        if is_alignment_trait(rows.last().1@) { rest } else { rest.push(rows.last()) }
    }
}

/// The traits of each creature, grouped from the rows, without those that carry an
/// alignment.
pub fn fetch_all_creature_traits(rows: Vec<(i64, String)>) -> (r: HashMap<i64, Vec<String>>)
    ensures
        r@.dom() == traits_by_creature_spec(rows_without_alignment(rows@)).dom(),
        forall|id: i64| #[trigger] r@.contains_key(id) ==> views(r@[id]@) == traits_by_creature_spec(
            rows_without_alignment(rows@),
        )[id],
{
    let ghost all = rows@;
    let mut rest = rows;
    let mut kept: Vec<(i64, String)> = Vec::new();
    let ghost mut n: int = 0;
    while rest.len() > 0
        invariant
            0 <= n <= all.len(),
            rest@ == all.skip(n),
            kept@ == rows_without_alignment(all.take(n)),
        decreases rest@.len(),
    {
        let (id, name) = rest.remove(0);
        proof {
            assert(all.take(n + 1).drop_last() =~= all.take(n));
            assert(all.take(n + 1).last() == (id, name));
            assert(rest@ =~= all.skip(n + 1));
        }
        let u = to_uppercase(name.as_str());
        let carries = u.eq(&String::from_str("GOOD")) || u.eq(&String::from_str("EVIL"))
            || u.eq(&String::from_str("CHAOTIC")) || u.eq(&String::from_str("LAWFUL"));
        if !carries {
            kept.push((id, name));
        }
        proof {
            n = n + 1;
        }
    }
    assert(all.take(n) =~= all);
    traits_by_creature(kept)
}

/// Every kept row is a row of the list and carries no alignment.
pub proof fn lemma_rows_without_alignment(rows: Seq<(i64, String)>)
    ensures
        forall|k: int| 0 <= k < rows_without_alignment(rows).len() ==> rows.contains(
            #[trigger] rows_without_alignment(rows)[k],
        ) && !is_alignment_trait(rows_without_alignment(rows)[k].1@),
    decreases rows.len(),
{
    if rows.len() > 0 {
        let init = rows.drop_last();
        lemma_rows_without_alignment(init);
        let rest = rows_without_alignment(init);
        assert forall|k: int| 0 <= k < rows_without_alignment(rows).len() implies rows.contains(
            #[trigger] rows_without_alignment(rows)[k],
        ) && !is_alignment_trait(rows_without_alignment(rows)[k].1@) by {
            if k < rest.len() {
                let j = choose|j: int| 0 <= j < init.len() && init[j] == rest[k];
                assert(rows[j] == init[j]);
            } else {
                assert(rows[rows.len() - 1] == rows.last());
            }
        }
    }
}

/// Some row gives the creature the trait.
pub open spec fn row_gives_trait(rows: Seq<(i64, String)>, id: i64, t: Seq<char>) -> bool {
    exists|k: int| 0 <= k < rows.len() && rows[k].0 == id && rows[k].1@ == t
}

/// Every trait listed for a creature comes from a row of that creature.
pub proof fn lemma_traits_come_from_rows(rows: Seq<(i64, String)>)
    ensures
        forall|id: i64, j: int| traits_by_creature_spec(rows).contains_key(id) && 0 <= j < traits_by_creature_spec(
            rows,
        )[id].len() ==> row_gives_trait(rows, id, #[trigger] traits_by_creature_spec(rows)[id][j]),
    decreases rows.len(),
{
    if rows.len() > 0 {
        let init = rows.drop_last();
        lemma_traits_come_from_rows(init);
        let m = traits_by_creature_spec(init);
        let (lid, lname) = rows.last();
        let group = if m.contains_key(lid) { m[lid] } else { Seq::empty() };
        assert forall|id: i64, j: int| traits_by_creature_spec(rows).contains_key(id) && 0 <= j < traits_by_creature_spec(
            rows,
        )[id].len() implies row_gives_trait(rows, id, #[trigger] traits_by_creature_spec(rows)[id][j]) by {
            let t = traits_by_creature_spec(rows)[id][j];
            if id == lid && j == group.len() {
                assert(rows[rows.len() - 1].0 == id && rows[rows.len() - 1].1@ == t);
            } else {
                assert(t == m[id][j]);
                assert(row_gives_trait(init, id, m[id][j]));
                let k = choose|k: int| 0 <= k < init.len() && init[k].0 == id && init[k].1@ == m[id][j];
                assert(rows[k] == init[k]);
            }
        }
    }
}

/// The base creature made of fetched parts: the core data, at its own level and with
/// its own link, and the details that were fetched.
pub open spec fn fetched_creature(
    core: CreatureCoreData,
    extra_data: Option<CreatureExtraData>,
    combat_data: Option<CreatureCombatData>,
    spell_caster_data: Option<CreatureSpellcasterData>,
) -> Creature {
    Creature {
        core_data: core,
        variant_data: CreatureVariantData {
            variant: CreatureVariant::Base,
            level: core.essential.base_level,
            archive_link: core.derived.archive_link,
        },
        extra_data,
        combat_data,
        spell_caster_data,
    }
}

/// The creature of the creature page, from its fetched parts: the base creature (see
/// `fetched_creature`) made into the asked variant, then, when the level-without-
/// proficiency rule is on, with the level taken off its details.
pub fn creature_from_fetched_parts(
    core: CreatureCoreData,
    extra_data: Option<CreatureExtraData>,
    combat_data: Option<CreatureCombatData>,
    spell_caster_data: Option<CreatureSpellcasterData>,
    variant: CreatureVariant,
    is_pwl_on: Option<bool>,
) -> (r: Creature)
    requires
        core_fits_variant(core, variant),
        details_fit_variant(fetched_creature(core, extra_data, combat_data, spell_caster_data), variant),
        is_pwl_on == Some(true) ==> forall|m: Creature|
            #[trigger] variant_version_of(fetched_creature(core, extra_data, combat_data, spell_caster_data), variant, m)
                ==> details_fit_pwl(m),
    ensures
        exists|m: Creature|
            #[trigger] variant_version_of(fetched_creature(core, extra_data, combat_data, spell_caster_data), variant, m)
                && if is_pwl_on == Some(true) {
                pwl_version_of(m, r)
            } else {
                r == m
            },
{
    let ghost base = fetched_creature(core, extra_data, combat_data, spell_caster_data);
    let mut cr = Creature::from_core(core);
    cr.extra_data = extra_data;
    cr.combat_data = combat_data;
    cr.spell_caster_data = spell_caster_data;
    let v = cr.convert_creature_to_variant(variant);
    assert(variant_version_of(base, variant, v));
    let pwl_on = match is_pwl_on {
        Some(b) => b,
        None => false,
    };
    if pwl_on {
        let p = v.convert_creature_to_pwl();
        assert(pwl_version_of(v, p));
        p
    } else {
        v
    }
}

} // verus!
