//! The decisions of the creature service of the flat model that do not need the
//! database: paging the creatures that pass the filters, grouping creatures by level,
//! and widening the level filters for weak and elite variants.
use crate::models::creature::creature_struct::Creature as CreatureWithVariant;
use crate::models::creature::Creature;
use crate::models::creature::passes_field_filters;
use crate::models::creature_filter_enum::CreatureFilter;
use crate::models::routers_validator_structs::{FieldFilters, PaginatedRequest};
use crate::text::{decimal, i64_to_string, parse_i64, spec_parse_i64, views};
use std::collections::HashMap;
use vstd::prelude::*;

verus! {

broadcast use vstd::std_specs::hash::group_hash_axioms;

// ----- Pages of the filtered creatures ---------------------------------------------------

/// The creatures that pass the filters, in order.
pub open spec fn passing_creatures(list: Seq<Creature>, f: FieldFilters) -> Seq<Creature>
    decreases list.len(),
{
    if list.len() == 0 {
        Seq::empty()
    } else {
        let rest = passing_creatures(list.drop_last(), f);
        if passes_field_filters(list.last(), f) { rest.push(list.last()) } else { rest }
    }
}

/// The page of a list that starts at the cursor and holds at most the page size (all
/// the rest when the page size is negative).
pub open spec fn page_of<T>(s: Seq<T>, cursor: u32, page_size: i16) -> Seq<T> {
    let start = if cursor as int <= s.len() { cursor as int } else { s.len() as int };
    let end = if page_size < 0 || start + page_size >= s.len() { s.len() as int } else { start + page_size };
    s.subrange(start, end)
}

/// One page of the creatures that pass the filters, with its size.
pub fn paginate_passing_creatures(list: Vec<Creature>, filters: &FieldFilters, pagination: &PaginatedRequest) -> (r: (
    u32,
    Vec<Creature>,
))
    ensures
        r.1@ == page_of(passing_creatures(list@, *filters), pagination.cursor, pagination.page_size),
        r.0 == r.1@.len() as u32,
{
    let ghost all = list@;
    let mut rest = list;
    let mut kept: Vec<Creature> = Vec::new();
    let ghost mut n: int = 0;
    while rest.len() > 0
        invariant
            0 <= n <= all.len(),
            rest@ == all.skip(n),
            kept@ == passing_creatures(all.take(n), *filters),
        decreases rest@.len(),
    {
        let c = rest.remove(0);
        proof {
            assert(all.take(n + 1).drop_last() =~= all.take(n));
            assert(all.take(n + 1).last() == c);
            assert(rest@ =~= all.skip(n + 1));
        }
        if c.is_passing_filters(filters) {
            kept.push(c);
        }
        proof {
            n = n + 1;
        }
    }
    assert(all.take(n) =~= all);
    let ghost passing = kept@;
    let start: usize = if (pagination.cursor as usize) <= kept.len() { pagination.cursor as usize } else { kept.len() };
    let mut page: Vec<Creature> = Vec::new();
    let mut tail = kept.split_off(start);
    assert(tail@ =~= passing.subrange(start as int, passing.len() as int));
    let ghost t = tail@;
    let limit: usize = if pagination.page_size < 0 { tail.len() } else if (pagination.page_size as usize) < tail.len() {
        pagination.page_size as usize
    } else {
        tail.len()
    };
    while page.len() < limit
        invariant
            limit <= t.len(),
            page@.len() <= limit,
            page@ == t.take(page@.len() as int),
            tail@ == t.skip(page@.len() as int),
        decreases limit - page@.len(),
    {
        let ghost k = page@.len();
        let c = tail.remove(0);
        page.push(c);
        proof {
            assert(page@ =~= t.take((k + 1) as int));
            assert(tail@ =~= t.skip((k + 1) as int));
        }
    }
    assert(page@ =~= page_of(passing, pagination.cursor, pagination.page_size));
    let count = page.len() as u32;
    (count, page)
}

// ----- Creatures by level ----------------------------------------------------------------

/// The creatures grouped by level, each group in the order of the list.
pub open spec fn by_level(list: Seq<CreatureWithVariant>) -> Map<i64, Seq<CreatureWithVariant>>
    decreases list.len(),
{
    if list.len() == 0 {
        Map::empty()
    } else {
        let m = by_level(list.drop_last());
        let c = list.last();
        let l = c.variant_data.level;
        let group = if m.contains_key(l) { m[l] } else { Seq::empty() };
        m.insert(l, group.push(c))
    }
}

/// Groups the creatures by their level, keeping their order within each level.
pub fn order_list_by_level(creature_list: Vec<CreatureWithVariant>) -> (r: HashMap<i64, Vec<CreatureWithVariant>>)
    ensures
        r@.dom() == by_level(creature_list@).dom(),
        forall|l: i64| #[trigger] r@.contains_key(l) ==> r@[l]@ == by_level(creature_list@)[l],
{
    let ghost all = creature_list@;
    let mut rest = creature_list;
    let mut m: HashMap<i64, Vec<CreatureWithVariant>> = HashMap::new();
    let ghost mut n: int = 0;
    while rest.len() > 0
        invariant
            0 <= n <= all.len(),
            rest@ == all.skip(n),
            m@.dom() == by_level(all.take(n)).dom(),
            forall|l: i64| #[trigger] m@.contains_key(l) ==> m@[l]@ == by_level(all.take(n))[l],
        decreases rest@.len(),
    {
        let c = rest.remove(0);
        let ghost before = by_level(all.take(n));
        proof {
            assert(all.take(n + 1).drop_last() =~= all.take(n));
            assert(all.take(n + 1).last() == c);
            assert(rest@ =~= all.skip(n + 1));
        }
        let l = c.variant_data.level;
        let mut group = match m.remove(&l) {
            Some(g) => g,
            None => Vec::new(),
        };
        group.push(c);
        m.insert(l, group);
        proof {
            n = n + 1;
            let after = by_level(all.take(n));
            assert(m@.dom() =~= after.dom());
        }
    }
    assert(all.take(n) =~= all);
    m
}

// ----- Level filters for the variants ------------------------------------------------------

/// The levels written in the values of a level filter, each as given; texts that are not
/// whole numbers are dropped.
pub open spec fn is_level_text(values: Seq<Seq<char>>, l: i64) -> bool {
    exists|i: int| 0 <= i < values.len() && spec_parse_i64(#[trigger] values[i]) == Some(l)
}

/// The texts of a widened level filter: every written level, with the level above it
/// when weak creatures are allowed and the level below when elite ones are.
pub open spec fn widened_level_text(values: Seq<Seq<char>>, fetch_weak: bool, fetch_elite: bool, x: Seq<char>) -> bool {
    exists|l: i64|
        is_level_text(values, l) && (x == decimal(l as int) || (fetch_weak && x == decimal(l + 1)) || (fetch_elite
            && x == decimal(l - 1)))
}

/// Every written level can be moved by one where the variants need it.
pub open spec fn level_texts_shiftable(values: Seq<Seq<char>>, fetch_weak: bool, fetch_elite: bool) -> bool {
    forall|l: i64| is_level_text(values, l) ==> (fetch_weak ==> l < i64::MAX) && (fetch_elite ==> l > i64::MIN)
}

/// The filters, with the level values widened where variants are allowed.
pub open spec fn filters_shiftable(filters: Seq<(CreatureFilter, Vec<String>)>, fetch_weak: bool, fetch_elite: bool) -> bool {
    forall|i: int|
        0 <= i < filters.len() && (#[trigger] filters[i]).0 == CreatureFilter::Level ==> level_texts_shiftable(
            views(filters[i].1@),
            fetch_weak,
            fetch_elite,
        )
}

/// The filters as a map of sets holds them: each filter once, and no value twice in its
/// list.
pub open spec fn filters_as_map(filters: Seq<(CreatureFilter, Vec<String>)>) -> bool {
    &&& forall|i: int, j: int| 0 <= i < j < filters.len() ==> (#[trigger] filters[i]).0 != (#[trigger] filters[j]).0
    &&& forall|i: int| 0 <= i < filters.len() ==> views((#[trigger] filters[i]).1@).no_duplicates()
}

fn push_text_once(list: &mut Vec<String>, x: String)
    ensures
        forall|y: Seq<char>| views(final(list)@).contains(y) <==> (views(old(list)@).contains(y) || y == x@),
        views(old(list)@).no_duplicates() ==> views(final(list)@).no_duplicates(),
{
    let mut i: usize = 0;
    while i < list.len()
        invariant
            list@ == old(list)@,
            i <= list@.len(),
            forall|k: int| 0 <= k < i ==> list@[k]@ != x@,
        decreases list@.len() - i,
    {
        if list[i].eq(&x) {
            assert(views(list@)[i as int] == x@);
            return;
        }
        i = i + 1;
    }
    let ghost before = views(list@);
    let ghost xv = x@;
    list.push(x);
    proof {
        assert(views(list@) =~= before.push(xv));
        assert(!before.contains(xv)) by {
            if before.contains(xv) {
                let k = choose|k: int| 0 <= k < before.len() && before[k] == xv;
                assert(list@[k]@ != xv);
            }
        }
        assert forall|y: Seq<char>| views(list@).contains(y) <==> (before.contains(y) || y == xv) by {
            if views(list@).contains(y) {
                let k = choose|k: int| 0 <= k < views(list@).len() && views(list@)[k] == y;
                if k < before.len() {
                    assert(before[k] == y);
                }
            }
            if before.contains(y) {
                let k = choose|k: int| 0 <= k < before.len() && before[k] == y;
                assert(views(list@)[k] == y);
            }
            if y == xv {
                assert(views(list@)[before.len() as int] == y);
            }
        }
    }
}

/// The values of a level filter, widened: each written level once, with the level
/// above (weak) and below (elite) where allowed; texts that are not levels are dropped.
fn widen_level_values(values: &Vec<String>, fetch_weak: bool, fetch_elite: bool) -> (r: Vec<String>)
    requires
        level_texts_shiftable(views(values@), fetch_weak, fetch_elite),
    ensures
        views(r@).no_duplicates(),
        forall|x: Seq<char>| views(r@).contains(x) <==> widened_level_text(views(values@), fetch_weak, fetch_elite, x),
{
    let mut out: Vec<String> = Vec::new();
    let mut i: usize = 0;
    while i < values.len()
        invariant
            i <= values@.len(),
            level_texts_shiftable(views(values@), fetch_weak, fetch_elite),
            views(out@).no_duplicates(),
            forall|x: Seq<char>| views(out@).contains(x) <==> widened_level_text(views(values@.take(i as int)), fetch_weak, fetch_elite, x),
        decreases values@.len() - i,
    {
        let ghost vi = views(values@.take(i as int));
        let ghost vn = views(values@.take(i + 1));
        proof {
            assert(vn =~= vi.push(values@[i as int]@));
        }
        let parsed = parse_i64(values[i].as_str());
        match parsed {
            Some(level) => {
                proof {
                    assert(views(values@)[i as int] == values@[i as int]@);
                    assert(is_level_text(views(values@), level));
                }
                if fetch_weak {
                    push_text_once(&mut out, i64_to_string(level + 1));
                }
                if fetch_elite {
                    push_text_once(&mut out, i64_to_string(level - 1));
                }
                push_text_once(&mut out, i64_to_string(level));
            },
            None => {},
        }
        proof {
            assert forall|l: i64| #[trigger] is_level_text(vn, l) <==> (is_level_text(vi, l) || spec_parse_i64(values@[i as int]@) == Some(l)) by {
                if is_level_text(vn, l) {
                    let k = choose|k: int| 0 <= k < vn.len() && spec_parse_i64(#[trigger] vn[k]) == Some(l);
                    if k < vi.len() {
                        assert(vi[k] == vn[k]);
                    }
                }
                if is_level_text(vi, l) {
                    let k = choose|k: int| 0 <= k < vi.len() && spec_parse_i64(#[trigger] vi[k]) == Some(l);
                    assert(vn[k] == vi[k]);
                }
                if spec_parse_i64(values@[i as int]@) == Some(l) {
                    assert(vn[i as int] == values@[i as int]@);
                }
            }
            assert forall|x: Seq<char>| views(out@).contains(x) <==> widened_level_text(vn, fetch_weak, fetch_elite, x) by {
                if widened_level_text(vn, fetch_weak, fetch_elite, x) {
                    let l = choose|l: i64| is_level_text(vn, l) && (x == decimal(l as int) || (fetch_weak && x == decimal(l + 1)) || (fetch_elite && x == decimal(l - 1)));
                    if is_level_text(vi, l) {
                        assert(widened_level_text(vi, fetch_weak, fetch_elite, x));
                    }
                }
                if widened_level_text(vi, fetch_weak, fetch_elite, x) {
                    let l = choose|l: i64| is_level_text(vi, l) && (x == decimal(l as int) || (fetch_weak && x == decimal(l + 1)) || (fetch_elite && x == decimal(l - 1)));
                    assert(is_level_text(vn, l));
                }
                match parsed {
                    Some(level) => {
                        if x == decimal(level as int) || (fetch_weak && x == decimal(level + 1)) || (fetch_elite && x == decimal(level - 1)) {
                            assert(is_level_text(vn, level));
                        }
                    },
                    None => {},
                }
            }
        }
        i = i + 1;
    }
    assert(values@.take(values@.len() as int) =~= values@);
    out
}

/// The filters to send to the database: the level filter widened where weak or elite
/// creatures are allowed (a weak creature is fetched at the level above, an elite one
/// at the level below), every other filter as it is.
pub fn prepare_filters_for_db_communication(
    key_value_filters: Vec<(CreatureFilter, Vec<String>)>,
    fetch_weak: bool,
    fetch_elite: bool,
) -> (r: Vec<(CreatureFilter, Vec<String>)>)
    requires
        filters_as_map(key_value_filters@),
        filters_shiftable(key_value_filters@, fetch_weak, fetch_elite),
    ensures
        filters_as_map(r@),
        r@.len() == key_value_filters@.len(),
        forall|i: int| 0 <= i < r@.len() ==> (#[trigger] r@[i]).0 == key_value_filters@[i].0,
        forall|i: int|
            0 <= i < r@.len() && (#[trigger] r@[i]).0 != CreatureFilter::Level ==> r@[i].1@ == key_value_filters@[i].1@,
        forall|i: int|
            0 <= i < r@.len() && (#[trigger] r@[i]).0 == CreatureFilter::Level ==> {
                &&& views(r@[i].1@).no_duplicates()
                &&& forall|x: Seq<char>| views(r@[i].1@).contains(x) <==> widened_level_text(
                    views(key_value_filters@[i].1@),
                    fetch_weak,
                    fetch_elite,
                    x,
                )
            },
{
    let ghost all = key_value_filters@;
    let mut rest = key_value_filters;
    let mut out: Vec<(CreatureFilter, Vec<String>)> = Vec::new();
    let ghost mut n: int = 0;
    while rest.len() > 0
        invariant
            0 <= n <= all.len(),
            rest@ == all.skip(n),
            filters_shiftable(all, fetch_weak, fetch_elite),
            out@.len() == n,
            forall|i: int| 0 <= i < n ==> (#[trigger] out@[i]).0 == all[i].0,
            forall|i: int| 0 <= i < n && (#[trigger] out@[i]).0 != CreatureFilter::Level ==> out@[i].1@ == all[i].1@,
            forall|i: int|
                0 <= i < n && (#[trigger] out@[i]).0 == CreatureFilter::Level ==> {
                    &&& views(out@[i].1@).no_duplicates()
                    &&& forall|x: Seq<char>| views(out@[i].1@).contains(x) <==> widened_level_text(
                        views(all[i].1@),
                        fetch_weak,
                        fetch_elite,
                        x,
                    )
                },
        decreases rest@.len(),
    {
        let (key, values) = rest.remove(0);
        proof {
            assert(all[n] == (key, values));
            assert(rest@ =~= all.skip(n + 1));
        }
        match key {
            CreatureFilter::Level => {
                let widened = widen_level_values(&values, fetch_weak, fetch_elite);
                out.push((key, widened));
            },
            _ => {
                out.push((key, values));
            },
        }
        proof {
            n = n + 1;
        }
    }
    out
}

// ----- Laws --------------------------------------------------------------------------

/// Every creature kept by the filters passes them.
pub proof fn lemma_passing_creatures_pass(list: Seq<Creature>, f: FieldFilters)
    ensures
        forall|i: int| 0 <= i < passing_creatures(list, f).len() ==> passes_field_filters(
            #[trigger] passing_creatures(list, f)[i],
            f,
        ),
        passing_creatures(list, f).len() <= list.len(),
    decreases list.len(),
{
    if list.len() > 0 {
        lemma_passing_creatures_pass(list.drop_last(), f);
    }
}

/// A page holds at most the page size, and two consecutive pages of a size are the
/// page of twice that size.
pub proof fn lemma_pages_tile<T>(s: Seq<T>, cursor: u32, size: i16)
    requires
        size >= 0,
        cursor as int + 2 * size as int <= u32::MAX,
        2 * size as int <= i16::MAX,
    ensures
        page_of(s, cursor, size).len() <= size,
        page_of(s, cursor, size) + page_of(s, (cursor + size) as u32, size) == page_of(s, cursor, (2 * size) as i16),
{
    assert(page_of(s, cursor, size) + page_of(s, (cursor + size) as u32, size) =~= page_of(s, cursor, (2 * size) as i16));
}

/// Every creature is in the group of its level, and every group holds creatures of
/// its level only, as many in all as the list has.
pub proof fn lemma_by_level_groups(list: Seq<CreatureWithVariant>)
    ensures
        forall|i: int| 0 <= i < list.len() ==> by_level(list).contains_key((#[trigger] list[i]).variant_data.level)
            && by_level(list)[list[i].variant_data.level].contains(list[i]),
        forall|l: i64, j: int| by_level(list).contains_key(l) && 0 <= j < by_level(list)[l].len()
            ==> (#[trigger] by_level(list)[l][j]).variant_data.level == l,
    decreases list.len(),
{
    if list.len() > 0 {
        let init = list.drop_last();
        lemma_by_level_groups(init);
        let m = by_level(init);
        let c = list.last();
        let l = c.variant_data.level;
        let group = if m.contains_key(l) { m[l] } else { Seq::empty() };
        assert forall|i: int| 0 <= i < list.len() implies by_level(list).contains_key((#[trigger] list[i]).variant_data.level)
            && by_level(list)[list[i].variant_data.level].contains(list[i]) by {
            if i < list.len() - 1 {
                assert(init[i] == list[i]);
                let li = list[i].variant_data.level;
                assert(m[li].contains(list[i]));
                if li == l {
                    let k = choose|k: int| 0 <= k < m[li].len() && m[li][k] == list[i];
                    assert(group.push(c)[k] == list[i]);
                }
            } else {
                assert(list[i] == c);
                assert(group.push(c)[group.len() as int] == c);
            }
        }
        assert forall|l2: i64, j: int| by_level(list).contains_key(l2) && 0 <= j < by_level(list)[l2].len()
            implies (#[trigger] by_level(list)[l2][j]).variant_data.level == l2 by {
            if l2 == l {
                if j < group.len() {
                    assert(m[l][j].variant_data.level == l);
                }
            }
        }
    }
}

} // verus!
