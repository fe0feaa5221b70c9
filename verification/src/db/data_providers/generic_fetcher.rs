//! What is done with the traits fetched for a batch of entities: each entity gets the
//! traits fetched for its id, without the alignment traits where asked.
use crate::db::bestiary_proxy::copy_strings;
use crate::models::creature_metadata::alignment_enum::{non_alignment_traits, without_alignment_traits};
use crate::text::views;
use std::collections::HashMap;
use vstd::prelude::*;

verus! {

broadcast use vstd::std_specs::hash::group_hash_axioms;

/// The traits an entity gets: those fetched for its id (none when nothing was fetched
/// for it), without the alignment traits when `filter_alignment` is set.
pub open spec fn entity_traits(traits_by_id: Map<i64, Vec<String>>, id: i64, filter_alignment: bool) -> Seq<Seq<char>> {
    let fetched = if traits_by_id.contains_key(id) { views(traits_by_id[id]@) } else { Seq::empty() };
    if filter_alignment { non_alignment_traits(fetched) } else { fetched }
}

/// The traits of each entity of a batch, in the order of `ids`, from the traits fetched
/// for the batch by entity id.
pub fn enrich_with_traits(ids: &Vec<i64>, traits_by_id: &HashMap<i64, Vec<String>>, filter_alignment: bool) -> (r: Vec<
    Vec<String>,
>)
    ensures
        r@.len() == ids@.len(),
        forall|i: int| 0 <= i < ids@.len() ==> views((#[trigger] r@[i])@) == entity_traits(traits_by_id@, ids@[i], filter_alignment),
{
    let mut out: Vec<Vec<String>> = Vec::new();
    let mut i: usize = 0;
    while i < ids.len()
        invariant
            i <= ids@.len(),
            out@.len() == i,
            forall|k: int| 0 <= k < i ==> views((#[trigger] out@[k])@) == entity_traits(traits_by_id@, ids@[k], filter_alignment),
        decreases ids@.len() - i,
    {
        let fetched: Vec<String> = match traits_by_id.get(&ids[i]) {
            Some(t) => copy_strings(t),
            None => Vec::new(),
        };
        assert(views(fetched@) =~= (if traits_by_id@.contains_key(ids@[i as int]) { views(traits_by_id@[ids@[i as int]]@) } else { Seq::empty() }));
        let traits = if filter_alignment { without_alignment_traits(&fetched) } else { fetched };
        out.push(traits);
        i = i + 1;
    }
    out
}

} // verus!
