//! The decisions of the bestiary service that do not need the database: which levels to
//! fetch when weak and elite variants are allowed, and the values a filter can take.
use crate::models::creature::creature_component::creature_core::{same_core, CreatureCoreData};
use crate::models::creature::creature_filter_enum::{CreatureFilter, FieldsUniqueValuesStruct};
use crate::models::creature::creature_metadata::variant_enum::{variant_archive_link, variant_level, CreatureVariant};
use crate::models::creature::creature_struct::{core_fits_variant, variant_core, Creature};
use crate::services::url_calculator::opt_view;
use crate::models::creature::creature_metadata::creature_role::{role_text, CreatureRoleEnum};
use crate::models::creature::creature_metadata::type_enum::{type_text, CreatureTypeEnum};
use crate::models::creature_metadata::alignment_enum::{alignment_text, AlignmentEnum};
use crate::models::shared::pf_version_enum::{version_text, GameSystemVersionEnum};
use crate::text::{sort_strings, strings_sorted, views};
use vstd::prelude::*;

verus! {

// ----- Levels to fetch ------------------------------------------------------------------

/// Each level is smaller than the next.
pub open spec fn strictly_increasing(s: Seq<i64>) -> bool {
    forall|i: int, j: int| 0 <= i < j < s.len() ==> s[i] < s[j]
}

/// A level is fetched when it is asked for, when it is one below an asked level and
/// elite creatures are allowed (an elite creature counts one level higher), or one
/// above and weak creatures are allowed.
pub open spec fn level_to_fetch(levels: Seq<i64>, fetch_weak: bool, fetch_elite: bool, x: int) -> bool {
    exists|i: int|
        0 <= i < levels.len() && (x == levels[i] || (fetch_elite && x == levels[i] - 1) || (fetch_weak && x
            == levels[i] + 1))
}

/// The levels can be shifted by one where the variants need it.
pub open spec fn levels_shiftable(levels: Seq<i64>, fetch_weak: bool, fetch_elite: bool) -> bool {
    forall|i: int|
        0 <= i < levels.len() ==> (fetch_elite ==> levels[i] > i64::MIN) && (fetch_weak ==> levels[i] < i64::MAX)
}

/// Adds `x` to a strictly increasing list of levels, unless it is there already.
fn insert_level(v: &mut Vec<i64>, x: i64)
    requires
        strictly_increasing(old(v)@),
    ensures
        strictly_increasing(final(v)@),
        forall|y: i64| final(v)@.contains(y) <==> (old(v)@.contains(y) || y == x),
{
    let mut p: usize = 0;
    while p < v.len() && v[p] < x
        invariant
            v@ == old(v)@,
            strictly_increasing(v@),
            p <= v@.len(),
            forall|k: int| 0 <= k < p ==> v@[k] < x,
        decreases v@.len() - p,
    {
        p = p + 1;
    }
    if p < v.len() && v[p] == x {
        assert(v@[p as int] == x);
        return;
    }
    let ghost before = v@;
    v.insert(p, x);
    proof {
        assert(v@ == before.insert(p as int, x));
        assert(before == old(v)@);
        assert forall|y: i64| #[trigger] v@.contains(y) <==> (old(v)@.contains(y) || y == x) by {
            if v@.contains(y) {
                let k = choose|k: int| 0 <= k < v@.len() && v@[k] == y;
                if k < p {
                    assert(before[k] == y);
                } else if k > p {
                    assert(before[k - 1] == y);
                }
            }
            if before.contains(y) {
                let k = choose|k: int| 0 <= k < before.len() && before[k] == y;
                if k < p {
                    assert(v@[k] == y);
                } else {
                    assert(v@[k + 1] == y);
                }
            }
            if y == x {
                assert(v@[p as int] == x);
            }
        }
    }
}

/// The levels to fetch when weak and elite variants may be wanted, in increasing order
/// and each once: the asked levels, with those one lower for elite creatures and one
/// higher for weak ones.
pub fn prepare_level_filter_for_db_communication(level_filter: &Vec<i64>, fetch_weak: bool, fetch_elite: bool) -> (r: Vec<i64>)
    requires
        levels_shiftable(level_filter@, fetch_weak, fetch_elite),
    ensures
        strictly_increasing(r@),
        forall|x: i64| r@.contains(x) <==> level_to_fetch(level_filter@, fetch_weak, fetch_elite, x as int),
{
    let mut out: Vec<i64> = Vec::new();
    let mut i: usize = 0;
    while i < level_filter.len()
        invariant
            i <= level_filter@.len(),
            levels_shiftable(level_filter@, fetch_weak, fetch_elite),
            strictly_increasing(out@),
            forall|x: i64| out@.contains(x) <==> level_to_fetch(level_filter@.take(i as int), fetch_weak, fetch_elite, x as int),
        decreases level_filter@.len() - i,
    {
        let l = level_filter[i];
        let ghost before = out@;
        insert_level(&mut out, l);
        if fetch_elite {
            insert_level(&mut out, l - 1);
        }
        if fetch_weak {
            insert_level(&mut out, l + 1);
        }
        proof {
            let t0 = level_filter@.take(i as int);
            let t1 = level_filter@.take(i + 1);
            assert forall|x: i64| out@.contains(x) <==> level_to_fetch(t1, fetch_weak, fetch_elite, x as int) by {
                if level_to_fetch(t0, fetch_weak, fetch_elite, x as int) {
                    let k = choose|k: int| 0 <= k < t0.len() && (x == t0[k] || (fetch_elite && x == t0[k] - 1) || (fetch_weak && x == t0[k] + 1));
                    assert(t1[k] == t0[k]);
                }
                if level_to_fetch(t1, fetch_weak, fetch_elite, x as int) {
                    let k = choose|k: int| 0 <= k < t1.len() && (x == t1[k] || (fetch_elite && x == t1[k] - 1) || (fetch_weak && x == t1[k] + 1));
                    if k < i {
                        assert(t0[k] == t1[k]);
                    }
                }
                assert(t1[i as int] == l);
            }
        }
        i = i + 1;
    }
    assert(level_filter@.take(level_filter@.len() as int) =~= level_filter@);
    out
}

// ----- Values of a filter -------------------------------------------------------------------

/// Every alignment's display name, in declaration order.
pub open spec fn alignment_texts_all() -> Seq<Seq<char>> {
    seq![
        alignment_text(AlignmentEnum::Ce), alignment_text(AlignmentEnum::Cn), alignment_text(AlignmentEnum::Cg),
        alignment_text(AlignmentEnum::Ne), alignment_text(AlignmentEnum::N), alignment_text(AlignmentEnum::Ng),
        alignment_text(AlignmentEnum::Le), alignment_text(AlignmentEnum::Ln), alignment_text(AlignmentEnum::Lg),
        alignment_text(AlignmentEnum::No), alignment_text(AlignmentEnum::Any),
    ]
}

/// Every role's display name, in declaration order.
pub open spec fn role_texts_all() -> Seq<Seq<char>> {
    seq![
        role_text(CreatureRoleEnum::Brute), role_text(CreatureRoleEnum::MagicalStriker),
        role_text(CreatureRoleEnum::SkillParagon), role_text(CreatureRoleEnum::Skirmisher),
        role_text(CreatureRoleEnum::Sniper), role_text(CreatureRoleEnum::Soldier),
        role_text(CreatureRoleEnum::SpellCaster),
    ]
}

/// The values a filter can take: those found in the table for the fields that vary, and
/// every name of the enumeration for the others.
pub open spec fn filter_value_choices(field: CreatureFilter, values: FieldsUniqueValuesStruct) -> Seq<Seq<char>> {
    match field {
        CreatureFilter::Size => views(values.list_of_sizes@),
        CreatureFilter::Rarity => views(values.list_of_rarities@),
        CreatureFilter::Ranged | CreatureFilter::Melee | CreatureFilter::Spellcaster => seq!["true"@, "false"@],
        CreatureFilter::Family => views(values.list_of_families@),
        CreatureFilter::Traits => views(values.list_of_traits@),
        CreatureFilter::Sources => views(values.list_of_sources@),
        CreatureFilter::Alignment => alignment_texts_all(),
        CreatureFilter::Level => views(values.list_of_levels@),
        CreatureFilter::CreatureTypes => seq![type_text(CreatureTypeEnum::Monster), type_text(CreatureTypeEnum::Npc)],
        CreatureFilter::CreatureRoles => role_texts_all(),
        CreatureFilter::PathfinderVersion => seq![
            version_text(GameSystemVersionEnum::Legacy),
            version_text(GameSystemVersionEnum::Remaster),
            version_text(GameSystemVersionEnum::Any),
        ],
    }
}

pub(crate) fn copy_strings(v: &Vec<String>) -> (r: Vec<String>)
    ensures
        r@ == v@,
{
    let mut out: Vec<String> = Vec::new();
    let mut i: usize = 0;
    while i < v.len()
        invariant
            i <= v@.len(),
            out@ == v@.take(i as int),
        decreases v@.len() - i,
    {
        out.push(v[i].clone());
        i = i + 1;
        assert(out@ =~= v@.take(i as int));
    }
    assert(v@.take(v@.len() as int) =~= v@);
    out
}

/// The values a filter can take, sorted, as many times each as they are found.
pub fn possible_values_of_filter(values: &FieldsUniqueValuesStruct, field: CreatureFilter) -> (r: Vec<String>)
    ensures
        views(r@).to_multiset() == filter_value_choices(field, *values).to_multiset(),
        strings_sorted(r@),
{
    let chosen: Vec<String> = match field {
        CreatureFilter::Size => copy_strings(&values.list_of_sizes),
        CreatureFilter::Rarity => copy_strings(&values.list_of_rarities),
        CreatureFilter::Ranged | CreatureFilter::Melee | CreatureFilter::Spellcaster => {
            let mut v = Vec::new();
            v.push(String::from_str("true"));
            v.push(String::from_str("false"));
            v
        },
        CreatureFilter::Family => copy_strings(&values.list_of_families),
        CreatureFilter::Traits => copy_strings(&values.list_of_traits),
        CreatureFilter::Sources => copy_strings(&values.list_of_sources),
        CreatureFilter::Alignment => {
            let mut v = Vec::new();
            v.push(AlignmentEnum::Ce.to_string());
            v.push(AlignmentEnum::Cn.to_string());
            v.push(AlignmentEnum::Cg.to_string());
            v.push(AlignmentEnum::Ne.to_string());
            v.push(AlignmentEnum::N.to_string());
            v.push(AlignmentEnum::Ng.to_string());
            v.push(AlignmentEnum::Le.to_string());
            v.push(AlignmentEnum::Ln.to_string());
            v.push(AlignmentEnum::Lg.to_string());
            v.push(AlignmentEnum::No.to_string());
            v.push(AlignmentEnum::Any.to_string());
            v
        },
        CreatureFilter::Level => copy_strings(&values.list_of_levels),
        CreatureFilter::CreatureTypes => {
            let mut v = Vec::new();
            v.push(CreatureTypeEnum::Monster.to_string());
            v.push(CreatureTypeEnum::Npc.to_string());
            v
        },
        CreatureFilter::CreatureRoles => {
            let mut v = Vec::new();
            v.push(CreatureRoleEnum::Brute.to_string());
            v.push(CreatureRoleEnum::MagicalStriker.to_string());
            v.push(CreatureRoleEnum::SkillParagon.to_string());
            v.push(CreatureRoleEnum::Skirmisher.to_string());
            v.push(CreatureRoleEnum::Sniper.to_string());
            v.push(CreatureRoleEnum::Soldier.to_string());
            v.push(CreatureRoleEnum::SpellCaster.to_string());
            v
        },
        CreatureFilter::PathfinderVersion => {
            let mut v = Vec::new();
            v.push(GameSystemVersionEnum::Legacy.to_string());
            v.push(GameSystemVersionEnum::Remaster.to_string());
            v.push(GameSystemVersionEnum::Any.to_string());
            v
        },
    };
    assert(views(chosen@) =~= filter_value_choices(field, *values));
    sort_strings(&chosen)
}

// ----- Creatures of the fetched cores ------------------------------------------------------

/// The creatures to build from fetched core data, in order: for each core, its weak
/// variant when weak creatures are allowed and the level below it was asked for (a weak
/// creature counts one level lower), its elite variant when elite creatures are
/// allowed and the level above was asked for, and the creature itself.
pub open spec fn catalogue_plan(
    cores: Seq<CreatureCoreData>,
    levels: Seq<i64>,
    fetch_weak: bool,
    fetch_elite: bool,
) -> Seq<(CreatureCoreData, CreatureVariant)>
    decreases cores.len(),
{
    if cores.len() == 0 {
        Seq::empty()
    } else {
        let c = cores.last();
        let l = c.essential.base_level as int;
        catalogue_plan(cores.drop_last(), levels, fetch_weak, fetch_elite)
            + (if fetch_weak && levels.contains((l - 1) as i64) { seq![(c, CreatureVariant::Weak)] } else { Seq::empty() })
            + (if fetch_elite && levels.contains((l + 1) as i64) { seq![(c, CreatureVariant::Elite)] } else { Seq::empty() })
            + seq![(c, CreatureVariant::Base)]
    }
}

/// `r` is the creature of `core` as variant `v`, without details; the base creature
/// keeps the core data as it is.
pub open spec fn built_as(r: Creature, core: CreatureCoreData, v: CreatureVariant) -> bool {
    &&& (if v == CreatureVariant::Base {
        same_core(r.core_data, core)
    } else {
        same_core(r.core_data, variant_core(core, v))
    })
    &&& r.variant_data.variant == v
    &&& r.variant_data.level == variant_level(v, core.essential.base_level as int)
    &&& opt_view(r.variant_data.archive_link) == variant_archive_link(v, opt_view(core.derived.archive_link))
    &&& r.extra_data is None
    &&& r.combat_data is None
    &&& r.spell_caster_data is None
}

fn contains_level(levels: &Vec<i64>, x: i64) -> (r: bool)
    ensures
        r == levels@.contains(x),
{
    let mut i: usize = 0;
    while i < levels.len()
        invariant
            i <= levels@.len(),
            forall|k: int| 0 <= k < i ==> levels@[k] != x,
        decreases levels@.len() - i,
    {
        if levels[i] == x {
            assert(levels@[i as int] == x);
            return true;
        }
        i = i + 1;
    }
    false
}

fn push_variant(out: &mut Vec<Creature>, core: &CreatureCoreData, v: CreatureVariant)
    requires
        core_fits_variant(*core, v),
        v != CreatureVariant::Base,
    ensures
        final(out)@.len() == old(out)@.len() + 1,
        forall|k: int| 0 <= k < old(out)@.len() ==> final(out)@[k] == old(out)@[k],
        built_as(final(out)@[old(out)@.len() as int], *core, v),
{
    let c = core.copy();
    let cr = Creature::from_core_with_variant(c, v);
    out.push(cr);
}

/// A core's level can be shifted to look for its variants, and each variant that will
/// be built keeps its hit points and level within `i64`.
pub open spec fn core_fits_catalogue(c: CreatureCoreData, levels: Seq<i64>, fetch_weak: bool, fetch_elite: bool) -> bool {
    let l = c.essential.base_level as int;
    &&& (fetch_weak ==> l > i64::MIN)
    &&& (fetch_elite ==> l < i64::MAX)
    &&& (fetch_weak && levels.contains((l - 1) as i64) ==> core_fits_variant(c, CreatureVariant::Weak))
    &&& (fetch_elite && levels.contains((l + 1) as i64) ==> core_fits_variant(c, CreatureVariant::Elite))
}

/// The creatures of the fetched core data (see `catalogue_plan`): weak and elite
/// variants are added for the cores whose level, once adjusted, was asked for.
pub fn creatures_from_fetched_cores(
    cores: &Vec<CreatureCoreData>,
    level_filter: &Vec<i64>,
    fetch_weak: bool,
    fetch_elite: bool,
) -> (r: Vec<Creature>)
    requires
        forall|i: int| 0 <= i < cores@.len() ==> core_fits_catalogue(#[trigger] cores@[i], level_filter@, fetch_weak, fetch_elite),
    ensures
        r@.len() == catalogue_plan(cores@, level_filter@, fetch_weak, fetch_elite).len(),
        forall|i: int| 0 <= i < r@.len() ==> {
            let p = #[trigger] catalogue_plan(cores@, level_filter@, fetch_weak, fetch_elite)[i];
            built_as(r@[i], p.0, p.1)
        },
{
    let mut out: Vec<Creature> = Vec::new();
    let mut i: usize = 0;
    while i < cores.len()
        invariant
            i <= cores@.len(),
            forall|k: int| 0 <= k < cores@.len() ==> core_fits_catalogue(#[trigger] cores@[k], level_filter@, fetch_weak, fetch_elite),
            out@.len() == catalogue_plan(cores@.take(i as int), level_filter@, fetch_weak, fetch_elite).len(),
            forall|k: int| 0 <= k < out@.len() ==> {
                let p = #[trigger] catalogue_plan(cores@.take(i as int), level_filter@, fetch_weak, fetch_elite)[k];
                built_as(out@[k], p.0, p.1)
            },
        decreases cores@.len() - i,
    {
        let core = &cores[i];
        assert(core_fits_catalogue(cores@[i as int], level_filter@, fetch_weak, fetch_elite));
        let ghost prev = catalogue_plan(cores@.take(i as int), level_filter@, fetch_weak, fetch_elite);
        let ghost n0 = out@.len();
        let ghost out0 = out@;
        let lvl = core.essential.base_level;
        let w = fetch_weak && contains_level(level_filter, lvl - 1);
        if w {
            push_variant(&mut out, core, CreatureVariant::Weak);
        }
        let ghost out1 = out@;
        let e = fetch_elite && contains_level(level_filter, lvl + 1);
        if e {
            push_variant(&mut out, core, CreatureVariant::Elite);
        }
        let ghost out2 = out@;
        let c = core.copy();
        out.push(Creature::from_core(c));
        proof {
            let c0 = cores@[i as int];
            assert(cores@.take(i + 1).drop_last() =~= cores@.take(i as int));
            assert(cores@.take(i + 1).last() == c0);
            let ws: Seq<(CreatureCoreData, CreatureVariant)> =
                if w { seq![(c0, CreatureVariant::Weak)] } else { Seq::empty() };
            let es: Seq<(CreatureCoreData, CreatureVariant)> =
                if e { seq![(c0, CreatureVariant::Elite)] } else { Seq::empty() };
            let next = catalogue_plan(cores@.take(i + 1), level_filter@, fetch_weak, fetch_elite);
            assert(next =~= prev + ws + es + seq![(c0, CreatureVariant::Base)]);
            assert forall|k: int| 0 <= k < out@.len() implies {
                let p = #[trigger] next[k];
                built_as(out@[k], p.0, p.1)
            } by {
                if k < n0 {
                    assert(out@[k] == out0[k]);
                    assert(next[k] == prev[k]);
                } else if k < n0 + ws.len() {
                    assert(next[k] == (c0, CreatureVariant::Weak));
                } else if k < n0 + ws.len() + es.len() {
                    assert(next[k] == (c0, CreatureVariant::Elite));
                } else {
                    assert(next[k] == (c0, CreatureVariant::Base));
                }
            }
        }
        i = i + 1;
    }
    assert(cores@.take(cores@.len() as int) =~= cores@);
    out
}

// ----- Laws --------------------------------------------------------------------------

/// Without variants, exactly the asked levels are fetched; with weak (elite) creatures
/// allowed, the level above (below) every asked level is fetched too.
pub proof fn lemma_levels_to_fetch(levels: Seq<i64>, fetch_weak: bool, fetch_elite: bool, i: int)
    requires
        0 <= i < levels.len(),
    ensures
        level_to_fetch(levels, fetch_weak, fetch_elite, levels[i] as int),
        fetch_weak ==> level_to_fetch(levels, fetch_weak, fetch_elite, levels[i] + 1),
        fetch_elite ==> level_to_fetch(levels, fetch_weak, fetch_elite, levels[i] - 1),
        forall|x: int| level_to_fetch(levels, false, false, x) <==> exists|k: int| 0 <= k < levels.len() && levels[k] == x,
{
}

/// Every fetched core gives its base creature, after the variants built from it; with
/// no variant allowed, the creatures are the cores' base creatures, in order.
pub proof fn lemma_every_core_listed(cores: Seq<CreatureCoreData>, levels: Seq<i64>, fetch_weak: bool, fetch_elite: bool)
    ensures
        forall|i: int| 0 <= i < cores.len() ==> catalogue_plan(cores, levels, fetch_weak, fetch_elite).contains(
            (#[trigger] cores[i], CreatureVariant::Base),
        ),
        cores.len() <= catalogue_plan(cores, levels, fetch_weak, fetch_elite).len() <= 3 * cores.len(),
        catalogue_plan(cores, levels, false, false) == cores.map_values(
            |c: CreatureCoreData| (c, CreatureVariant::Base),
        ),
    decreases cores.len(),
{
    if cores.len() > 0 {
        let init = cores.drop_last();
        lemma_every_core_listed(init, levels, fetch_weak, fetch_elite);
        let plan = catalogue_plan(cores, levels, fetch_weak, fetch_elite);
        let prev = catalogue_plan(init, levels, fetch_weak, fetch_elite);
        assert(plan[plan.len() - 1] == (cores.last(), CreatureVariant::Base));
        assert forall|i: int| 0 <= i < cores.len() implies plan.contains((#[trigger] cores[i], CreatureVariant::Base)) by {
            if i < cores.len() - 1 {
                assert(init[i] == cores[i]);
                assert(prev.contains((init[i], CreatureVariant::Base)));
                let k = choose|k: int| 0 <= k < prev.len() && prev[k] == (init[i], CreatureVariant::Base);
                assert(plan[k] == prev[k]);
            } else {
                assert(cores[i] == cores.last());
            }
        }
        assert(catalogue_plan(cores, levels, false, false) =~= cores.map_values(
            |c: CreatureCoreData| (c, CreatureVariant::Base),
        )) by {
            assert(init.map_values(|c: CreatureCoreData| (c, CreatureVariant::Base)).push((cores.last(), CreatureVariant::Base))
                =~= cores.map_values(|c: CreatureCoreData| (c, CreatureVariant::Base)));
        }
    } else {
        assert(cores.map_values(|c: CreatureCoreData| (c, CreatureVariant::Base)) =~= Seq::empty());
    }
}

} // verus!
