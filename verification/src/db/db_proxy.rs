//! The decisions of the cached creature service of the flat model: its weak and elite
//! variants, the creatures passing key/value filters, grouping by level, and the
//! values a field can take.
use crate::db::db_cache::{contains_text, field_string, field_text, RuntimeFieldsValues};
use crate::models::creature_fields_enum::CreatureField;
use crate::models::creature::Creature;
use crate::models::creature_component::creature_core::EssentialData;
use crate::models::creature_filter_enum::CreatureFilter;
use crate::services::url_calculator::{add_boolean_query, opt_view, spec_add_boolean_query};
use crate::text::{bool_text, bool_to_string, sort_strings, strings_sorted, views};
use std::collections::HashMap;
use vstd::prelude::*;

verus! {

broadcast use vstd::std_specs::hash::group_hash_axioms;

// ----- Variants ------------------------------------------------------------------------

/// The hit point change of a variant by level: 10 from level 1, 15 from level 2, 20
/// from level 5 and 30 from level 20, in that order.
pub open spec fn hp_steps() -> Seq<(i8, u16)> {
    seq![(1i8, 10u16), (2i8, 15u16), (5i8, 20u16), (20i8, 30u16)]
}

/// The change for a level: that of the highest table level not above it; below the
/// table, that of its lowest level.
pub open spec fn hp_step_at(level: int) -> int {
    if level >= 20 {
        30
    } else if level >= 5 {
        20
    } else if level >= 2 {
        15
    } else {
        10
    }
}

/// The table of hit point changes, by increasing level.
pub fn hp_increase_by_level() -> (r: Vec<(i8, u16)>)
    ensures
        r@ == hp_steps(),
{
    let mut v: Vec<(i8, u16)> = Vec::new();
    v.push((1, 10));
    v.push((2, 15));
    v.push((5, 20));
    v.push((20, 30));
    assert(v@ =~= hp_steps());
    v
}

/// The name of the variant a level change makes: elite up, weak down.
pub open spec fn delta_variant_name(level_delta: int) -> Seq<char> {
    if level_delta >= 1 { "Elite"@ } else { "Weak"@ }
}

/// The hit points after a level change: the step of the level times the change, never
/// below 1.
pub open spec fn variant_hp_for_delta(hp: int, level: int, level_delta: int) -> int {
    let x = hp + hp_step_at(level) * level_delta;
    if x > 1 { x } else { 1 }
}

/// The level change leaves the level in eight bits and the hit points in `i64`.
pub open spec fn delta_fits(c: Creature, level_delta: i8) -> bool {
    &&& i8::MIN <= c.variant_data.level + level_delta <= i8::MAX
    &&& i64::MIN + 3840 <= c.core_data.essential.hp <= i64::MAX - 3840
}

/// The step chosen from the table for a level.
fn step_for_level(level: i8) -> (r: u16)
    ensures
        r == hp_step_at(level as int),
{
    let table = hp_increase_by_level();
    let mut step: u16 = table[0].1;
    let mut i: usize = 0;
    while i < table.len()
        invariant
            table@ == hp_steps(),
            i <= table@.len(),
            step == (if i == 0 { 10int } else if level >= 20 && i >= 4 { 30int } else if level >= 5 && i >= 3 { 20 }
                else if level >= 2 && i >= 2 { 15 } else { 10 }),
        decreases table@.len() - i,
    {
        if table[i].0 <= level {
            step = table[i].1;
        }
        i = i + 1;
    }
    step
}

/// The creature shifted by a level change: its hit points gain (or lose) the step of its
/// level per level of change, never dropping below 1, its level moves by the change,
/// and a weak or elite creature's archive link gains the matching query. Everything else
/// is kept.
pub fn convert_creature_to_variant(creature: Creature, level_delta: i8) -> (r: Creature)
    requires
        delta_fits(creature, level_delta),
    ensures
        r.core_data.essential.hp == variant_hp_for_delta(
            creature.core_data.essential.hp as int,
            creature.variant_data.level as int,
            level_delta as int,
        ),
        r.variant_data.level == creature.variant_data.level + level_delta,
        opt_view(r.variant_data.archive_link) == (if level_delta == 0 {
            opt_view(creature.variant_data.archive_link)
        } else {
            spec_add_boolean_query(opt_view(creature.core_data.derived.archive_link), delta_variant_name(level_delta as int), true)
        }),
        r.core_data.essential == (EssentialData { hp: r.core_data.essential.hp, ..creature.core_data.essential }),
        r.core_data.derived == creature.core_data.derived,
        r.core_data.traits == creature.core_data.traits,
        r.extra_data == creature.extra_data,
        r.combat_data == creature.combat_data,
        r.spell_caster_data == creature.spell_caster_data,
        r.info == creature.info,
{
    let mut cr = creature;
    let step = step_for_level(cr.variant_data.level);
    assert(-3840 <= (step as int) * (level_delta as int) <= 3840) by (nonlinear_arith)
        requires
            10 <= step <= 30,
            -128 <= level_delta <= 127;
    let delta = (step as i64) * (level_delta as i64);
    let hp = cr.core_data.essential.hp + delta;
    cr.core_data.essential.hp = if hp > 1 { hp } else { 1 };
    cr.variant_data.level = cr.variant_data.level + level_delta;
    if level_delta != 0 {
        let name = if level_delta >= 1 { "Elite" } else { "Weak" };
        proof {
            reveal_strlit("Elite");
            reveal_strlit("Weak");
        }
        cr.variant_data.archive_link = add_boolean_query(cr.core_data.derived.archive_link.as_ref(), name, true);
    }
    cr
}

// ----- Key/value filters ------------------------------------------------------------------

/// A creature passes a filter when the text of the filtered field is among the wanted
/// values; for traits, when one of the wanted values is among its traits. The flat
/// creatures hold no role, so a role filter passes none.
pub open spec fn passes_single_filter(c: Creature, field: CreatureFilter, values: Seq<Seq<char>>) -> bool {
    match field {
        CreatureFilter::Level => values.contains(field_text(c, 1)),
        CreatureFilter::Family => values.contains(field_text(c, 2)),
        CreatureFilter::Alignment => values.contains(field_text(c, 4)),
        CreatureFilter::Size => values.contains(field_text(c, 5)),
        CreatureFilter::Rarity => values.contains(field_text(c, 6)),
        CreatureFilter::CreatureTypes => values.contains(field_text(c, 7)),
        CreatureFilter::Melee => values.contains(bool_text(c.core_data.derived.is_melee)),
        CreatureFilter::Ranged => values.contains(bool_text(c.core_data.derived.is_ranged)),
        CreatureFilter::SpellCaster => values.contains(bool_text(c.core_data.derived.is_spell_caster)),
        CreatureFilter::Traits => exists|i: int|
            0 <= i < values.len() && views(c.core_data.traits@).contains(#[trigger] values[i]),
        CreatureFilter::CreatureRoles => false,
    }
}

/// A creature passes every filter of the list.
pub open spec fn passes_all_filters(c: Creature, filters: Seq<(CreatureFilter, Vec<String>)>) -> bool {
    forall|k: int| 0 <= k < filters.len() ==> passes_single_filter(c, (#[trigger] filters[k]).0, views(filters[k].1@))
}

/// The creatures passing every filter of the list, in order.
pub open spec fn passing_all(list: Seq<Creature>, filters: Seq<(CreatureFilter, Vec<String>)>) -> Seq<Creature>
    decreases list.len(),
{
    if list.len() == 0 {
        Seq::empty()
    } else {
        let rest = passing_all(list.drop_last(), filters);
        if passes_all_filters(list.last(), filters) { rest.push(list.last()) } else { rest }
    }
}

/// Whether one of the wanted values is among the traits.
fn shares_a_value(values: &Vec<String>, traits: &Vec<String>) -> (r: bool)
    ensures
        r == exists|i: int| 0 <= i < views(values@).len() && views(traits@).contains(#[trigger] views(values@)[i]),
{
    let mut i: usize = 0;
    while i < values.len()
        invariant
            i <= values@.len(),
            forall|k: int| 0 <= k < i ==> !views(traits@).contains(#[trigger] views(values@)[k]),
        decreases values@.len() - i,
    {
        if contains_text(traits, &values[i]) {
            assert(views(values@)[i as int] == values@[i as int]@);
            return true;
        }
        assert(views(values@)[i as int] == values@[i as int]@);
        i = i + 1;
    }
    false
}

fn passes_single(c: &Creature, field: CreatureFilter, values: &Vec<String>) -> (r: bool)
    ensures
        r == passes_single_filter(*c, field, views(values@)),
{
    let d = &c.core_data.derived;
    match field {
        CreatureFilter::Level => contains_text(values, &field_string(c, 1)),
        CreatureFilter::Family => contains_text(values, &field_string(c, 2)),
        CreatureFilter::Alignment => contains_text(values, &field_string(c, 4)),
        CreatureFilter::Size => contains_text(values, &field_string(c, 5)),
        CreatureFilter::Rarity => contains_text(values, &field_string(c, 6)),
        CreatureFilter::CreatureTypes => contains_text(values, &field_string(c, 7)),
        CreatureFilter::Melee => contains_text(values, &bool_to_string(d.is_melee)),
        CreatureFilter::Ranged => contains_text(values, &bool_to_string(d.is_ranged)),
        CreatureFilter::SpellCaster => contains_text(values, &bool_to_string(d.is_spell_caster)),
        CreatureFilter::Traits => shares_a_value(values, &c.core_data.traits),
        CreatureFilter::CreatureRoles => false,
    }
}

fn passes_all(c: &Creature, filters: &Vec<(CreatureFilter, Vec<String>)>) -> (r: bool)
    ensures
        r == passes_all_filters(*c, filters@),
{
    let mut i: usize = 0;
    while i < filters.len()
        invariant
            i <= filters@.len(),
            forall|k: int| 0 <= k < i ==> passes_single_filter(*c, (#[trigger] filters@[k]).0, views(filters@[k].1@)),
        decreases filters@.len() - i,
    {
        if !passes_single(c, filters[i].0, &filters[i].1) {
            return false;
        }
        i = i + 1;
    }
    true
}

/// The creatures, in order, that pass every filter of the list.
pub fn fetch_creatures_passing_all_filters(
    creature_list: Vec<Creature>,
    key_value_filters: &Vec<(CreatureFilter, Vec<String>)>,
) -> (r: Vec<Creature>)
    ensures
        r@ == passing_all(creature_list@, key_value_filters@),
{
    let ghost all = creature_list@;
    let mut rest = creature_list;
    let mut kept: Vec<Creature> = Vec::new();
    let ghost mut n: int = 0;
    while rest.len() > 0
        invariant
            0 <= n <= all.len(),
            rest@ == all.skip(n),
            kept@ == passing_all(all.take(n), key_value_filters@),
        decreases rest@.len(),
    {
        let c = rest.remove(0);
        proof {
            assert(all.take(n + 1).drop_last() =~= all.take(n));
            assert(all.take(n + 1).last() == c);
            assert(rest@ =~= all.skip(n + 1));
        }
        if passes_all(&c, key_value_filters) {
            kept.push(c);
        }
        proof {
            n = n + 1;
        }
    }
    assert(all.take(n) =~= all);
    kept
}

/// The creatures passing one filter, in order.
pub open spec fn passing_single(list: Seq<Creature>, field: CreatureFilter, values: Seq<Seq<char>>) -> Seq<Creature>
    decreases list.len(),
{
    if list.len() == 0 {
        Seq::empty()
    } else {
        let rest = passing_single(list.drop_last(), field, values);
        if passes_single_filter(list.last(), field, values) { rest.push(list.last()) } else { rest }
    }
}

/// The creatures, in order, that pass one filter.
pub fn fetch_creatures_passing_single_filter(
    creature_list: Vec<Creature>,
    field_in_which_to_filter: CreatureFilter,
    filter_vec: &Vec<String>,
) -> (r: Vec<Creature>)
    ensures
        r@ == passing_single(creature_list@, field_in_which_to_filter, views(filter_vec@)),
{
    let ghost all = creature_list@;
    let ghost values = views(filter_vec@);
    let mut rest = creature_list;
    let mut kept: Vec<Creature> = Vec::new();
    let ghost mut n: int = 0;
    while rest.len() > 0
        invariant
            0 <= n <= all.len(),
            rest@ == all.skip(n),
            values == views(filter_vec@),
            kept@ == passing_single(all.take(n), field_in_which_to_filter, values),
        decreases rest@.len(),
    {
        let c = rest.remove(0);
        proof {
            assert(all.take(n + 1).drop_last() =~= all.take(n));
            assert(all.take(n + 1).last() == c);
            assert(rest@ =~= all.skip(n + 1));
        }
        if passes_single(&c, field_in_which_to_filter, filter_vec) {
            kept.push(c);
        }
        proof {
            n = n + 1;
        }
    }
    assert(all.take(n) =~= all);
    kept
}

// ----- Lookup and grouping -------------------------------------------------------------------

/// The first creature of the list with the id, if any.
pub open spec fn first_with_id(list: Seq<Creature>, id: i64) -> Option<Creature>
    decreases list.len(),
{
    if list.len() == 0 {
        None
    } else if list[0].core_data.essential.id == id {
        Some(list[0])
    } else {
        first_with_id(list.drop_first(), id)
    }
}

/// The first creature of the list with the id.
pub fn creature_with_id(creature_list: Vec<Creature>, id: i64) -> (r: Option<Creature>)
    ensures
        r == first_with_id(creature_list@, id),
{
    let ghost all = creature_list@;
    let mut rest = creature_list;
    while rest.len() > 0
        invariant
            all == creature_list@,
            first_with_id(rest@, id) == first_with_id(all, id),
        decreases rest@.len(),
    {
        let ghost before = rest@;
        let c = rest.remove(0);
        assert(rest@ =~= before.drop_first());
        if c.core_data.essential.id == id {
            assert(before[0] == c);
            assert(first_with_id(before, id) == Some(c));
            return Some(c);
        }
    }
    None
}

/// The creatures grouped by level, each group in the order of the list.
pub open spec fn grouped_by_level(list: Seq<Creature>) -> Map<i16, Seq<Creature>>
    decreases list.len(),
{
    if list.len() == 0 {
        Map::empty()
    } else {
        let m = grouped_by_level(list.drop_last());
        let c = list.last();
        let l = c.variant_data.level as i16;
        let group = if m.contains_key(l) { m[l] } else { Seq::empty() };
        m.insert(l, group.push(c))
    }
}

/// Groups the creatures by their level, keeping their order within each level.
pub fn order_list_by_level(creature_list: Vec<Creature>) -> (r: HashMap<i16, Vec<Creature>>)
    ensures
        r@.dom() == grouped_by_level(creature_list@).dom(),
        forall|l: i16| #[trigger] r@.contains_key(l) ==> r@[l]@ == grouped_by_level(creature_list@)[l],
{
    let ghost all = creature_list@;
    let mut rest = creature_list;
    let mut m: HashMap<i16, Vec<Creature>> = HashMap::new();
    let ghost mut n: int = 0;
    while rest.len() > 0
        invariant
            0 <= n <= all.len(),
            rest@ == all.skip(n),
            m@.dom() == grouped_by_level(all.take(n)).dom(),
            forall|l: i16| #[trigger] m@.contains_key(l) ==> m@[l]@ == grouped_by_level(all.take(n))[l],
        decreases rest@.len(),
    {
        let c = rest.remove(0);
        proof {
            assert(all.take(n + 1).drop_last() =~= all.take(n));
            assert(all.take(n + 1).last() == c);
            assert(rest@ =~= all.skip(n + 1));
        }
        let l = c.variant_data.level as i16;
        let mut group = match m.remove(&l) {
            Some(g) => g,
            None => Vec::new(),
        };
        group.push(c);
        m.insert(l, group);
        proof {
            n = n + 1;
            let after = grouped_by_level(all.take(n));
            assert(m@.dom() =~= after.dom());
        }
    }
    assert(all.take(n) =~= all);
    m
}

// ----- Values of a field ---------------------------------------------------------------------

/// The values a field can take: those found among the creatures, `true` and `false`
/// for the ways of attacking, none for the name and hit points.
pub open spec fn field_key_choices(values: RuntimeFieldsValues, field: CreatureField) -> Seq<Seq<char>> {
    match field {
        CreatureField::Id => views(values.list_of_ids@),
        CreatureField::Size => views(values.list_of_sizes@),
        CreatureField::Rarity => views(values.list_of_rarities@),
        CreatureField::Ranged | CreatureField::Melee | CreatureField::SpellCaster => seq!["true"@, "false"@],
        CreatureField::Family => views(values.list_of_families@),
        CreatureField::Sources => views(values.list_of_sources@),
        CreatureField::Alignment => views(values.list_of_alignments@),
        CreatureField::Level => views(values.list_of_levels@),
        CreatureField::Name | CreatureField::Hp => Seq::empty(),
    }
}

/// The values a field can take, sorted.
pub fn keys_of_field(values: &RuntimeFieldsValues, field: CreatureField) -> (r: Vec<String>)
    ensures
        views(r@).to_multiset() == field_key_choices(*values, field).to_multiset(),
        strings_sorted(r@),
{
    match field {
        CreatureField::Id => sort_strings(&values.list_of_ids),
        CreatureField::Size => sort_strings(&values.list_of_sizes),
        CreatureField::Rarity => sort_strings(&values.list_of_rarities),
        CreatureField::Ranged | CreatureField::Melee | CreatureField::SpellCaster => {
            let mut v: Vec<String> = Vec::new();
            v.push(bool_to_string(true));
            v.push(bool_to_string(false));
            proof {
                reveal_strlit("true");
                reveal_strlit("false");
                assert(views(v@) =~= seq!["true"@, "false"@]);
            }
            sort_strings(&v)
        },
        CreatureField::Family => sort_strings(&values.list_of_families),
        CreatureField::Sources => sort_strings(&values.list_of_sources),
        CreatureField::Alignment => sort_strings(&values.list_of_alignments),
        CreatureField::Level => sort_strings(&values.list_of_levels),
        CreatureField::Name | CreatureField::Hp => {
            let v: Vec<String> = Vec::new();
            assert(views(v@) =~= Seq::<Seq<char>>::empty());
            sort_strings(&v)
        },
    }
}

// ----- Laws --------------------------------------------------------------------------

/// For a creature with at least 1 hit point, an upward level change never lowers its hit
/// points, a downward one never raises them, and no change leaves it below 1.
pub proof fn lemma_delta_hp_order(hp: int, level: int, level_delta: int)
    requires
        hp >= 1,
    ensures
        variant_hp_for_delta(hp, level, level_delta) >= 1,
        level_delta >= 0 ==> variant_hp_for_delta(hp, level, level_delta) >= hp,
        level_delta <= 0 ==> variant_hp_for_delta(hp, level, level_delta) <= hp,
        level_delta == 0 ==> variant_hp_for_delta(hp, level, level_delta) == hp,
{
    let s = hp_step_at(level);
    assert(level_delta >= 0 ==> s * level_delta >= 0) by (nonlinear_arith)
        requires s >= 10;
    assert(level_delta <= 0 ==> s * level_delta <= 0) by (nonlinear_arith)
        requires s >= 10;
}

/// Every creature kept by a list of filters passes each of them, and none is added.
pub proof fn lemma_passing_all_pass(list: Seq<Creature>, filters: Seq<(CreatureFilter, Vec<String>)>)
    ensures
        forall|i: int| 0 <= i < passing_all(list, filters).len() ==> passes_all_filters(
            #[trigger] passing_all(list, filters)[i],
            filters,
        ),
        forall|i: int| 0 <= i < passing_all(list, filters).len() ==> list.contains(#[trigger] passing_all(list, filters)[i]),
        passing_all(list, filters).len() <= list.len(),
    decreases list.len(),
{
    if list.len() > 0 {
        let init = list.drop_last();
        lemma_passing_all_pass(init, filters);
        assert forall|i: int| 0 <= i < passing_all(list, filters).len() implies list.contains(
            #[trigger] passing_all(list, filters)[i],
        ) by {
            let rest = passing_all(init, filters);
            if i < rest.len() {
                let k = choose|k: int| 0 <= k < init.len() && init[k] == rest[i];
                assert(list[k] == init[k]);
            } else {
                assert(list[list.len() - 1] == list.last());
            }
        }
    }
}

/// With no filter, every creature is kept, in order.
pub proof fn lemma_no_filters_keep_every_creature(list: Seq<Creature>)
    ensures
        passing_all(list, Seq::empty()) == list,
    decreases list.len(),
{
    if list.len() > 0 {
        lemma_no_filters_keep_every_creature(list.drop_last());
        assert(passes_all_filters(list.last(), Seq::empty()));
        assert(list.drop_last().push(list.last()) =~= list);
    }
}

/// Filtering by a list that holds one filter is filtering by that filter.
pub proof fn lemma_one_filter_list(list: Seq<Creature>, field: CreatureFilter, values: Vec<String>)
    ensures
        passing_all(list, seq![(field, values)]) == passing_single(list, field, views(values@)),
    decreases list.len(),
{
    if list.len() > 0 {
        lemma_one_filter_list(list.drop_last(), field, values);
        let fs = seq![(field, values)];
        let c = list.last();
        if passes_single_filter(c, field, views(values@)) {
            assert forall|k: int| 0 <= k < fs.len() implies passes_single_filter(c, (#[trigger] fs[k]).0, views(fs[k].1@)) by {
                assert(k == 0);
            }
        } else {
            assert(!passes_single_filter(c, fs[0].0, views(fs[0].1@)));
        }
    }
}

/// Every creature is in the group of its level, and every group holds only creatures of
/// its level.
pub proof fn lemma_grouped_by_level(list: Seq<Creature>)
    ensures
        forall|i: int| 0 <= i < list.len() ==> grouped_by_level(list).contains_key((#[trigger] list[i]).variant_data.level as i16)
            && grouped_by_level(list)[list[i].variant_data.level as i16].contains(list[i]),
        forall|l: i16, j: int| grouped_by_level(list).contains_key(l) && 0 <= j < grouped_by_level(list)[l].len()
            ==> (#[trigger] grouped_by_level(list)[l][j]).variant_data.level as i16 == l,
    decreases list.len(),
{
    if list.len() > 0 {
        let init = list.drop_last();
        lemma_grouped_by_level(init);
        let m = grouped_by_level(init);
        let c = list.last();
        let l = c.variant_data.level as i16;
        let group = if m.contains_key(l) { m[l] } else { Seq::empty() };
        assert forall|i: int| 0 <= i < list.len() implies grouped_by_level(list).contains_key(
            (#[trigger] list[i]).variant_data.level as i16,
        ) && grouped_by_level(list)[list[i].variant_data.level as i16].contains(list[i]) by {
            if i < list.len() - 1 {
                assert(init[i] == list[i]);
                let li = list[i].variant_data.level as i16;
                assert(m[li].contains(list[i]));
                if li == l {
                    let k = choose|k: int| 0 <= k < m[li].len() && m[li][k] == list[i];
                    assert(group.push(c)[k] == list[i]);
                }
            } else {
                assert(list[i] == c);
                assert(group.push(c)[group.len() as int] == c);
            }
        }
        assert forall|l2: i16, j: int| grouped_by_level(list).contains_key(l2) && 0 <= j < grouped_by_level(list)[l2].len()
            implies (#[trigger] grouped_by_level(list)[l2][j]).variant_data.level as i16 == l2 by {
            if l2 == l {
                if j < group.len() {
                    assert(m[l][j].variant_data.level as i16 == l);
                }
            }
        }
    }
}

} // verus!
