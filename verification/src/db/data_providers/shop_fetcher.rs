//! What the shop does with the items the database draws: when fewer items came back
//! than the shop asked for, the items are regrouped by type, and each type's list
//! gains random copies of its items, as many as it holds beyond that type's count.
use crate::models::item::item_metadata::type_enum::ItemTypeEnum;
use crate::models::item::item_struct::{same_item, Item};
use crate::models::item::shop_structs::ShopFilterQuery;
use nanorand::Rng;
use vstd::prelude::*;

verus! {

/// A random index below `len`, drawn with `nanorand`'s `WyRand` as
/// `generate_range(0..len)`; for a non-empty range the crate returns a value inside it.
/// Which value is drawn is not stated.
#[verifier::external_body]
fn random_index(len: usize) -> (r: usize)
    requires
        len > 0,
    ensures
        r < len,
{
    nanorand::WyRand::new().generate_range(0..len)
}

/// The items of one type, in order.
pub open spec fn of_type(items: Seq<Item>, t: ItemTypeEnum) -> Seq<Item>
    decreases items.len(),
{
    if items.len() == 0 {
        Seq::empty()
    } else {
        let rest = of_type(items.drop_last(), t);
        if items.last().item_type == t { rest.push(items.last()) } else { rest }
    }
}

/// How many random copies are added to a list of `len` items when `desired` were asked
/// for: as many as the list exceeds the wish by; an empty list has nothing to copy.
pub open spec fn extra_copies(len: int, desired: int) -> int {
    if len > 0 && len > desired { len - desired } else { 0 }
}

/// `x` is a copy of one of the items.
pub open spec fn copy_of_one(x: Item, src: Seq<Item>) -> bool {
    exists|j: int| 0 <= j < src.len() && same_item(x, #[trigger] src[j])
}

/// `seg` is `src` followed by the right number of copies of its items.
pub open spec fn filled_from(seg: Seq<Item>, src: Seq<Item>, desired: int) -> bool {
    &&& seg.len() == src.len() + extra_copies(src.len() as int, desired)
    &&& forall|i: int| 0 <= i < src.len() ==> same_item(#[trigger] seg[i], src[i])
    &&& forall|i: int| src.len() <= i < seg.len() ==> copy_of_one(#[trigger] seg[i], src)
}

fn items_of_type(items: &Vec<Item>, t: ItemTypeEnum) -> (r: Vec<Item>)
    ensures
        r@.len() == of_type(items@, t).len(),
        forall|i: int| 0 <= i < r@.len() ==> same_item(#[trigger] r@[i], of_type(items@, t)[i]),
{
    let mut out: Vec<Item> = Vec::new();
    let mut i: usize = 0;
    while i < items.len()
        invariant
            i <= items@.len(),
            out@.len() == of_type(items@.take(i as int), t).len(),
            forall|k: int| 0 <= k < out@.len() ==> same_item(#[trigger] out@[k], of_type(items@.take(i as int), t)[k]),
        decreases items@.len() - i,
    {
        assert(items@.take(i + 1).drop_last() =~= items@.take(i as int));
        assert(items@.take(i + 1).last() == items@[i as int]);
        if items[i].item_type == t {
            out.push(items[i].copy());
        }
        i = i + 1;
    }
    assert(items@.take(items@.len() as int) =~= items@);
    out
}

/// The items, followed by random copies of them, as many as there are items beyond the
/// number wished for.
fn fill_item_vec_to_len(item_vec: &Vec<Item>, desired_len: i64) -> (r: Vec<Item>)
    requires
        item_vec@.len() - desired_len <= i64::MAX,
    ensures
        filled_from(r@, item_vec@, desired_len as int),
{
    let mut og_vec: Vec<Item> = Vec::new();
    let mut i: usize = 0;
    while i < item_vec.len()
        invariant
            i <= item_vec@.len(),
            og_vec@.len() == i,
            forall|k: int| 0 <= k < i ==> same_item(#[trigger] og_vec@[k], item_vec@[k]),
        decreases item_vec@.len() - i,
    {
        og_vec.push(item_vec[i].copy());
        i = i + 1;
    }
    let len = item_vec.len();
    let extra: u64 = if len > 0 && (len as i128) > (desired_len as i128) {
        ((len as i128) - (desired_len as i128)) as u64
    } else {
        0
    };
    let mut n: u64 = 0;
    while n < extra
        invariant
            n <= extra,
            extra == extra_copies(len as int, desired_len as int),
            extra > 0 ==> len > 0,
            len == item_vec@.len(),
            og_vec@.len() == len + n,
            forall|k: int| 0 <= k < len ==> same_item(#[trigger] og_vec@[k], item_vec@[k]),
            forall|k: int| len <= k < og_vec@.len() ==> copy_of_one(#[trigger] og_vec@[k], item_vec@),
        decreases extra - n,
    {
        let idx = random_index(len);
        let copy = item_vec[idx].copy();
        proof {
            assert(same_item(copy, item_vec@[idx as int]));
            assert(copy_of_one(copy, item_vec@));
        }
        let ghost before = og_vec@;
        og_vec.push(copy);
        proof {
            assert forall|k: int| len <= k < og_vec@.len() implies copy_of_one(#[trigger] og_vec@[k], item_vec@) by {
                if k < before.len() {
                    assert(og_vec@[k] == before[k]);
                }
            }
        }
        n = n + 1;
    }
    og_vec
}

/// The counts a shop asks for sum within `i64` (added as equipment, shields, weapons,
/// armors, consumables).
pub open spec fn counts_valid(q: ShopFilterQuery) -> bool {
    let e = q.n_of_equipment as int;
    let s = q.n_of_shields as int;
    let w = q.n_of_weapons as int;
    let a = q.n_of_armors as int;
    let c = q.n_of_consumables as int;
    &&& i64::MIN <= e + s <= i64::MAX
    &&& i64::MIN <= e + s + w <= i64::MAX
    &&& i64::MIN <= e + s + w + a <= i64::MAX
    &&& i64::MIN <= e + s + w + a + c <= i64::MAX
}

/// The count a shop asks for of a type.
pub open spec fn count_of(q: ShopFilterQuery, t: ItemTypeEnum) -> int {
    match t {
        ItemTypeEnum::Equipment => q.n_of_equipment as int,
        ItemTypeEnum::Consumable => q.n_of_consumables as int,
        ItemTypeEnum::Weapon => q.n_of_weapons as int,
        ItemTypeEnum::Armor => q.n_of_armors as int,
        ItemTypeEnum::Shield => q.n_of_shields as int,
    }
}

/// When too few items were drawn, each type's list can be measured against its count
/// within `i64`.
pub open spec fn fill_fits(items: Seq<Item>, q: ShopFilterQuery) -> bool {
    items.len() < items_wanted(q) ==> forall|t: ItemTypeEnum| of_type(items, t).len() - #[trigger] count_of(q, t) <= i64::MAX
}

/// The number of items a shop asks for.
pub open spec fn items_wanted(q: ShopFilterQuery) -> int {
    q.n_of_equipment + q.n_of_shields + q.n_of_weapons + q.n_of_armors + q.n_of_consumables
}

/// The shop's items from those drawn: all of them when there are enough; otherwise, for
/// each type in turn (equipment, consumables, weapons, armors, shields), the drawn items
/// of that type followed by random copies of them, as many as the list holds beyond
/// that type's count (see `filled_from`).
pub fn shop_items_from_drawn(items: Vec<Item>, filters: &ShopFilterQuery) -> (r: Vec<Item>)
    requires
        counts_valid(*filters),
        fill_fits(items@, *filters),
    ensures
        items@.len() >= items_wanted(*filters) ==> r@ == items@,
        items@.len() < items_wanted(*filters) ==> exists|e: Seq<Item>, c: Seq<Item>, w: Seq<Item>, a: Seq<Item>, s: Seq<Item>|
            {
                &&& r@ == e + c + w + a + s
                &&& filled_from(e, of_type(items@, ItemTypeEnum::Equipment), filters.n_of_equipment as int)
                &&& filled_from(c, of_type(items@, ItemTypeEnum::Consumable), filters.n_of_consumables as int)
                &&& filled_from(w, of_type(items@, ItemTypeEnum::Weapon), filters.n_of_weapons as int)
                &&& filled_from(a, of_type(items@, ItemTypeEnum::Armor), filters.n_of_armors as int)
                &&& filled_from(s, of_type(items@, ItemTypeEnum::Shield), filters.n_of_shields as int)
            },
{
    let wanted: i64 = filters.n_of_equipment + filters.n_of_shields + filters.n_of_weapons + filters.n_of_armors
        + filters.n_of_consumables;
    if (items.len() as i128) >= (wanted as i128) {
        return items;
    }
    proof {
        assert(of_type(items@, ItemTypeEnum::Equipment).len() - count_of(*filters, ItemTypeEnum::Equipment) <= i64::MAX);
        assert(of_type(items@, ItemTypeEnum::Consumable).len() - count_of(*filters, ItemTypeEnum::Consumable) <= i64::MAX);
        assert(of_type(items@, ItemTypeEnum::Weapon).len() - count_of(*filters, ItemTypeEnum::Weapon) <= i64::MAX);
        assert(of_type(items@, ItemTypeEnum::Armor).len() - count_of(*filters, ItemTypeEnum::Armor) <= i64::MAX);
        assert(of_type(items@, ItemTypeEnum::Shield).len() - count_of(*filters, ItemTypeEnum::Shield) <= i64::MAX);
    }
    let equipment = items_of_type(&items, ItemTypeEnum::Equipment);
    let consumables = items_of_type(&items, ItemTypeEnum::Consumable);
    let weapons = items_of_type(&items, ItemTypeEnum::Weapon);
    let armors = items_of_type(&items, ItemTypeEnum::Armor);
    let shields = items_of_type(&items, ItemTypeEnum::Shield);
    let mut e = fill_item_vec_to_len(&equipment, filters.n_of_equipment);
    let mut c = fill_item_vec_to_len(&consumables, filters.n_of_consumables);
    let mut w = fill_item_vec_to_len(&weapons, filters.n_of_weapons);
    let mut a = fill_item_vec_to_len(&armors, filters.n_of_armors);
    let mut s = fill_item_vec_to_len(&shields, filters.n_of_shields);
    proof {
        lemma_filled_from_same(e@, equipment@, of_type(items@, ItemTypeEnum::Equipment), filters.n_of_equipment as int);
        lemma_filled_from_same(c@, consumables@, of_type(items@, ItemTypeEnum::Consumable), filters.n_of_consumables as int);
        lemma_filled_from_same(w@, weapons@, of_type(items@, ItemTypeEnum::Weapon), filters.n_of_weapons as int);
        lemma_filled_from_same(a@, armors@, of_type(items@, ItemTypeEnum::Armor), filters.n_of_armors as int);
        lemma_filled_from_same(s@, shields@, of_type(items@, ItemTypeEnum::Shield), filters.n_of_shields as int);
    }
    let ghost (ge, gc, gw, ga, gs) = (e@, c@, w@, a@, s@);
    let mut out: Vec<Item> = Vec::new();
    out.append(&mut e);
    out.append(&mut c);
    out.append(&mut w);
    out.append(&mut a);
    out.append(&mut s);
    assert(out@ =~= ge + gc + gw + ga + gs);
    out
}

/// Filling up copies of a list is filling up the list itself.
proof fn lemma_filled_from_same(seg: Seq<Item>, copy: Seq<Item>, src: Seq<Item>, desired: int)
    requires
        filled_from(seg, copy, desired),
        copy.len() == src.len(),
        forall|i: int| 0 <= i < copy.len() ==> same_item(#[trigger] copy[i], src[i]),
    ensures
        filled_from(seg, src, desired),
{
    assert forall|i: int| src.len() <= i < seg.len() implies copy_of_one(#[trigger] seg[i], src) by {
        assert(copy_of_one(seg[i], copy));
        let j = choose|j: int| 0 <= j < copy.len() && same_item(seg[i], #[trigger] copy[j]);
        assert(same_item(copy[j], src[j]));
        assert(same_item(seg[i], src[j]));
    }
}

/// The items of a type are drawn items of that type.
proof fn lemma_of_type_from_items(items: Seq<Item>, t: ItemTypeEnum)
    ensures
        forall|i: int| 0 <= i < of_type(items, t).len() ==> (#[trigger] of_type(items, t)[i]).item_type == t
            && items.contains(of_type(items, t)[i]),
    decreases items.len(),
{
    if items.len() > 0 {
        let init = items.drop_last();
        lemma_of_type_from_items(init, t);
        assert forall|i: int| 0 <= i < of_type(items, t).len() implies (#[trigger] of_type(items, t)[i]).item_type == t
            && items.contains(of_type(items, t)[i]) by {
            let x = of_type(items, t)[i];
            if i < of_type(init, t).len() {
                assert(x == of_type(init, t)[i]);
                let k = choose|k: int| 0 <= k < init.len() && init[k] == x;
                assert(items[k] == x);
            } else {
                assert(x == items.last());
                assert(items[items.len() - 1] == x);
            }
        }
    }
}

/// Whatever a shop's list of one type holds is a copy of a drawn item of that type.
pub proof fn lemma_filled_items_were_drawn(seg: Seq<Item>, items: Seq<Item>, t: ItemTypeEnum, desired: int)
    requires
        filled_from(seg, of_type(items, t), desired),
    ensures
        forall|i: int| 0 <= i < seg.len() ==> (#[trigger] seg[i]).item_type == t && copy_of_one(seg[i], items),
{
    lemma_of_type_from_items(items, t);
    let src = of_type(items, t);
    assert forall|i: int| 0 <= i < seg.len() implies (#[trigger] seg[i]).item_type == t && copy_of_one(seg[i], items) by {
        let j = if i < src.len() {
            i
        } else {
            assert(copy_of_one(seg[i], src));
            choose|j: int| 0 <= j < src.len() && same_item(seg[i], #[trigger] src[j])
        };
        assert(same_item(seg[i], src[j]));
        assert(items.contains(src[j]));
        let k = choose|k: int| 0 <= k < items.len() && items[k] == src[j];
        assert(same_item(seg[i], items[k]));
    }
}

} // verus!
