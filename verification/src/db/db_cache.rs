//! The distinct values of the creatures' fields, for the filter menus of the flat
//! creature model.
use crate::db::bestiary_proxy::copy_strings;
use crate::models::creature::Creature;
use crate::models::creature_metadata::alignment_enum::alignment_text;
use crate::models::creature_metadata::rarity_enum::rarity_text;
use crate::models::creature_metadata::size_enum::size_text;
use crate::models::creature_metadata::type_enum::creature_type_text;
use crate::text::{decimal, i64_to_string, views};
use vstd::prelude::*;

verus! {

/// The distinct values of the creatures' fields, ids included.
#[derive(Clone, Debug, Default, PartialEq, Eq)]
pub struct RuntimeFieldsValues {
    pub list_of_ids: Vec<String>,
    pub list_of_levels: Vec<String>,
    pub list_of_families: Vec<String>,
    pub list_of_traits: Vec<String>,
    pub list_of_sources: Vec<String>,
    pub list_of_alignments: Vec<String>,
    pub list_of_sizes: Vec<String>,
    pub list_of_rarities: Vec<String>,
    pub list_of_creature_types: Vec<String>,
}

/// The values in the order they first appear, each once.
pub open spec fn first_occurrences(s: Seq<Seq<char>>) -> Seq<Seq<char>>
    decreases s.len(),
{
    if s.len() == 0 {
        Seq::empty()
    } else {
        let r = first_occurrences(s.drop_last());
        if r.contains(s.last()) { r } else { r.push(s.last()) }
    }
}

/// The text of one field of a creature.
pub open spec fn field_text(c: Creature, field: int) -> Seq<char> {
    if field == 0 {
        decimal(c.core_data.essential.id as int)
    } else if field == 1 {
        decimal(c.variant_data.level as int)
    } else if field == 2 {
        c.core_data.essential.family@
    } else if field == 3 {
        c.core_data.essential.source@
    } else if field == 4 {
        alignment_text(c.core_data.essential.alignment)
    } else if field == 5 {
        size_text(c.core_data.essential.size)
    } else if field == 6 {
        rarity_text(c.core_data.essential.rarity)
    } else {
        creature_type_text(c.core_data.essential.cr_type)
    }
}

/// The texts of one field over the creatures, in order.
pub open spec fn field_texts(cs: Seq<Creature>, field: int) -> Seq<Seq<char>> {
    cs.map_values(|c: Creature| field_text(c, field))
}

/// Every creature's traits, one creature after the other.
pub open spec fn all_traits(cs: Seq<Creature>) -> Seq<Seq<char>>
    decreases cs.len(),
{
    if cs.len() == 0 {
        Seq::empty()
    } else {
        all_traits(cs.drop_last()) + views(cs.last().core_data.traits@)
    }
}

pub(crate) fn field_string(c: &Creature, field: u8) -> (r: String)
    requires
        field < 8,
    ensures
        r@ == field_text(*c, field as int),
{
    let e = &c.core_data.essential;
    if field == 0 {
        i64_to_string(e.id)
    } else if field == 1 {
        i64_to_string(c.variant_data.level as i64)
    } else if field == 2 {
        e.family.clone()
    } else if field == 3 {
        e.source.clone()
    } else if field == 4 {
        e.alignment.to_string()
    } else if field == 5 {
        e.size.to_string()
    } else if field == 6 {
        e.rarity.to_string()
    } else {
        e.cr_type.to_string()
    }
}

pub(crate) fn contains_text(list: &Vec<String>, x: &String) -> (r: bool)
    ensures
        r == views(list@).contains(x@),
{
    let mut i: usize = 0;
    while i < list.len()
        invariant
            i <= list@.len(),
            forall|k: int| 0 <= k < i ==> list@[k]@ != x@,
        decreases list@.len() - i,
    {
        if list[i].eq(x) {
            assert(views(list@)[i as int] == x@);
            return true;
        }
        i = i + 1;
    }
    assert forall|k: int| 0 <= k < views(list@).len() implies views(list@)[k] != x@ by {
        assert(list@[k]@ != x@);
    }
    false
}

/// Adds a value to the list of first occurrences, unless it is there already.
fn push_unique(list: &mut Vec<String>, x: String)
    ensures
        views(final(list)@) == (if views(old(list)@).contains(x@) { views(old(list)@) } else { views(old(list)@).push(x@) }),
{
    if !contains_text(list, &x) {
        let ghost before = views(list@);
        let ghost xv = x@;
        list.push(x);
        assert(views(list@) =~= before.push(xv));
    }
}

/// The distinct values of one field, in the order they first appear.
fn unique_field_values(data: &Vec<Creature>, field: u8) -> (r: Vec<String>)
    requires
        field < 8,
    ensures
        views(r@) == first_occurrences(field_texts(data@, field as int)),
{
    let mut out: Vec<String> = Vec::new();
    let mut i: usize = 0;
    while i < data.len()
        invariant
            field < 8,
            i <= data@.len(),
            views(out@) == first_occurrences(field_texts(data@.take(i as int), field as int)),
        decreases data@.len() - i,
    {
        let s = field_string(&data[i], field);
        proof {
            assert(field_texts(data@.take(i + 1), field as int).drop_last() =~= field_texts(data@.take(i as int), field as int));
            assert(field_texts(data@.take(i + 1), field as int).last() == field_text(data@[i as int], field as int));
        }
        push_unique(&mut out, s);
        i = i + 1;
    }
    assert(data@.take(data@.len() as int) =~= data@);
    out
}

proof fn lemma_all_traits_step(cs: Seq<Creature>, i: int, j: int)
    requires
        0 <= i < cs.len(),
        0 <= j < cs[i].core_data.traits@.len(),
    ensures
        (all_traits(cs.take(i)) + views(cs[i].core_data.traits@.take(j))).push(cs[i].core_data.traits@[j]@)
            == all_traits(cs.take(i)) + views(cs[i].core_data.traits@.take(j + 1)),
{
    assert(views(cs[i].core_data.traits@.take(j + 1)) =~= views(cs[i].core_data.traits@.take(j)).push(cs[i].core_data.traits@[j]@));
    assert((all_traits(cs.take(i)) + views(cs[i].core_data.traits@.take(j))).push(cs[i].core_data.traits@[j]@)
        =~= all_traits(cs.take(i)) + views(cs[i].core_data.traits@.take(j + 1)));
}

/// The distinct traits, in the order they first appear.
fn unique_traits(data: &Vec<Creature>) -> (r: Vec<String>)
    ensures
        views(r@) == first_occurrences(all_traits(data@)),
{
    let mut out: Vec<String> = Vec::new();
    let mut i: usize = 0;
    assert(all_traits(data@.take(0)) =~= Seq::<Seq<char>>::empty());
    while i < data.len()
        invariant
            i <= data@.len(),
            views(out@) == first_occurrences(all_traits(data@.take(i as int))),
        decreases data@.len() - i,
    {
        let traits = &data[i].core_data.traits;
        let mut j: usize = 0;
        assert(all_traits(data@.take(i as int)) + views(traits@.take(0)) =~= all_traits(data@.take(i as int)));
        while j < traits.len()
            invariant
                i < data@.len(),
                traits@ == data@[i as int].core_data.traits@,
                j <= traits@.len(),
                views(out@) == first_occurrences(all_traits(data@.take(i as int)) + views(traits@.take(j as int))),
            decreases traits@.len() - j,
        {
            proof {
                lemma_all_traits_step(data@, i as int, j as int);
                let a = all_traits(data@.take(i as int)) + views(traits@.take(j as int));
                assert(a.push(traits@[j as int]@).drop_last() =~= a);
            }
            push_unique(&mut out, traits[j].clone());
            j = j + 1;
        }
        proof {
            assert(traits@.take(traits@.len() as int) =~= traits@);
            assert(data@.take(i + 1).drop_last() =~= data@.take(i as int));
            assert(data@.take(i + 1).last() == data@[i as int]);
        }
        i = i + 1;
    }
    assert(data@.take(data@.len() as int) =~= data@);
    out
}

/// The distinct values of the creatures' fields, each list in the order the values
/// first appear among the creatures.
/// The lists hold the distinct values of the creatures' fields, each in the order the
/// values first appear.
pub open spec fn values_of_creatures(r: RuntimeFieldsValues, data: Seq<Creature>) -> bool {
    &&& views(r.list_of_ids@) == first_occurrences(field_texts(data, 0))
    &&& views(r.list_of_levels@) == first_occurrences(field_texts(data, 1))
    &&& views(r.list_of_families@) == first_occurrences(field_texts(data, 2))
    &&& views(r.list_of_sources@) == first_occurrences(field_texts(data, 3))
    &&& views(r.list_of_alignments@) == first_occurrences(field_texts(data, 4))
    &&& views(r.list_of_sizes@) == first_occurrences(field_texts(data, 5))
    &&& views(r.list_of_rarities@) == first_occurrences(field_texts(data, 6))
    &&& views(r.list_of_creature_types@) == first_occurrences(field_texts(data, 7))
    &&& views(r.list_of_traits@) == first_occurrences(all_traits(data))
}

/// The two hold the same lists.
pub open spec fn same_lists(a: RuntimeFieldsValues, b: RuntimeFieldsValues) -> bool {
    &&& a.list_of_ids@ == b.list_of_ids@
    &&& a.list_of_levels@ == b.list_of_levels@
    &&& a.list_of_families@ == b.list_of_families@
    &&& a.list_of_traits@ == b.list_of_traits@
    &&& a.list_of_sources@ == b.list_of_sources@
    &&& a.list_of_alignments@ == b.list_of_alignments@
    &&& a.list_of_sizes@ == b.list_of_sizes@
    &&& a.list_of_rarities@ == b.list_of_rarities@
    &&& a.list_of_creature_types@ == b.list_of_creature_types@
}

pub fn runtime_fields_values_of(data: &Vec<Creature>) -> (r: RuntimeFieldsValues)
    ensures
        values_of_creatures(r, data@),
{
    RuntimeFieldsValues {
        list_of_ids: unique_field_values(data, 0),
        list_of_levels: unique_field_values(data, 1),
        list_of_families: unique_field_values(data, 2),
        list_of_traits: unique_traits(data),
        list_of_sources: unique_field_values(data, 3),
        list_of_alignments: unique_field_values(data, 4),
        list_of_sizes: unique_field_values(data, 5),
        list_of_rarities: unique_field_values(data, 6),
        list_of_creature_types: unique_field_values(data, 7),
    }
}

/// A copy of the lists.
fn copy_values(v: &RuntimeFieldsValues) -> (r: RuntimeFieldsValues)
    ensures
        same_lists(r, *v),
{
    RuntimeFieldsValues {
        list_of_ids: copy_strings(&v.list_of_ids),
        list_of_levels: copy_strings(&v.list_of_levels),
        list_of_families: copy_strings(&v.list_of_families),
        list_of_traits: copy_strings(&v.list_of_traits),
        list_of_sources: copy_strings(&v.list_of_sources),
        list_of_alignments: copy_strings(&v.list_of_alignments),
        list_of_sizes: copy_strings(&v.list_of_sizes),
        list_of_rarities: copy_strings(&v.list_of_rarities),
        list_of_creature_types: copy_strings(&v.list_of_creature_types),
    }
}

/// The distinct values of the creatures' fields, kept in the cache: the cached lists
/// when there are some; otherwise the lists computed from the creatures, which the
/// cache then keeps.
pub fn from_db_data_to_filter_cache(cache: &mut Option<RuntimeFieldsValues>, data: &Vec<Creature>) -> (r: RuntimeFieldsValues)
    ensures
        old(cache).is_some() ==> same_lists(r, old(cache).unwrap()) && *final(cache) == *old(cache),
        old(cache).is_none() ==> values_of_creatures(r, data@) && final(cache).is_some() && same_lists(
            final(cache).unwrap(),
            r,
        ),
{
    match cache {
        Some(v) => copy_values(v),
        None => {
            let r = runtime_fields_values_of(data);
            *cache = Some(copy_values(&r));
            r
        },
    }
}

/// The first occurrences hold each value of the list exactly once, and nothing else.
pub proof fn lemma_first_occurrences(s: Seq<Seq<char>>)
    ensures
        first_occurrences(s).no_duplicates(),
        forall|x: Seq<char>| first_occurrences(s).contains(x) <==> s.contains(x),
    decreases s.len(),
{
    if s.len() > 0 {
        let init = s.drop_last();
        lemma_first_occurrences(init);
        let r = first_occurrences(init);
        assert forall|x: Seq<char>| s.contains(x) <==> (init.contains(x) || x == s.last()) by {
            if s.contains(x) {
                let k = choose|k: int| 0 <= k < s.len() && s[k] == x;
                if k < s.len() - 1 {
                    assert(init[k] == x);
                }
            }
            if init.contains(x) {
                let k = choose|k: int| 0 <= k < init.len() && init[k] == x;
                assert(s[k] == x);
            }
            if x == s.last() {
                assert(s[s.len() - 1] == x);
            }
        }
        if !r.contains(s.last()) {
            assert forall|x: Seq<char>| r.push(s.last()).contains(x) <==> (r.contains(x) || x == s.last()) by {
                if r.push(s.last()).contains(x) {
                    let k = choose|k: int| 0 <= k < r.push(s.last()).len() && r.push(s.last())[k] == x;
                    if k < r.len() {
                        assert(r[k] == x);
                    }
                }
                if r.contains(x) {
                    let k = choose|k: int| 0 <= k < r.len() && r[k] == x;
                    assert(r.push(s.last())[k] == x);
                }
                if x == s.last() {
                    assert(r.push(s.last())[r.len() as int] == x);
                }
            }
        }
    }
}

} // verus!
