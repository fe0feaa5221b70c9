use crate::db::bestiary_proxy::alignment_texts_all;
use crate::models::creature_metadata::alignment_enum::AlignmentEnum;
use crate::text::views;
use vstd::prelude::*;

verus! {

/// The distinct values of the creature table's fields, kept for the filter menus.
#[derive(Clone, Debug, Default, PartialEq, Eq)]
pub struct RuntimeFieldsValues {
    pub list_of_levels: Vec<String>,
    pub list_of_families: Vec<String>,
    pub list_of_traits: Vec<String>,
    pub list_of_sources: Vec<String>,
    pub list_of_alignments: Vec<String>,
    pub list_of_sizes: Vec<String>,
    pub list_of_rarities: Vec<String>,
    pub list_of_creature_types: Vec<String>,
}

impl RuntimeFieldsValues {
    /// The values read from the creature table, with every alignment's name (in the
    /// alignments' order) as the alignments.
    pub fn from_fetched(
        list_of_levels: Vec<String>,
        list_of_families: Vec<String>,
        list_of_traits: Vec<String>,
        list_of_sources: Vec<String>,
        list_of_sizes: Vec<String>,
        list_of_rarities: Vec<String>,
        list_of_creature_types: Vec<String>,
    ) -> (r: RuntimeFieldsValues)
        ensures
            r.list_of_levels == list_of_levels,
            r.list_of_families == list_of_families,
            r.list_of_traits == list_of_traits,
            r.list_of_sources == list_of_sources,
            r.list_of_sizes == list_of_sizes,
            r.list_of_rarities == list_of_rarities,
            r.list_of_creature_types == list_of_creature_types,
            views(r.list_of_alignments@) == alignment_texts_all(),
    {
        let mut alignments: Vec<String> = Vec::new();
        alignments.push(AlignmentEnum::Ce.to_string());
        alignments.push(AlignmentEnum::Cn.to_string());
        alignments.push(AlignmentEnum::Cg.to_string());
        alignments.push(AlignmentEnum::Ne.to_string());
        alignments.push(AlignmentEnum::N.to_string());
        alignments.push(AlignmentEnum::Ng.to_string());
        alignments.push(AlignmentEnum::Le.to_string());
        alignments.push(AlignmentEnum::Ln.to_string());
        alignments.push(AlignmentEnum::Lg.to_string());
        alignments.push(AlignmentEnum::No.to_string());
        alignments.push(AlignmentEnum::Any.to_string());
        assert(views(alignments@) =~= alignment_texts_all());
        RuntimeFieldsValues {
            list_of_levels,
            list_of_families,
            list_of_traits,
            list_of_sources,
            list_of_alignments: alignments,
            list_of_sizes,
            list_of_rarities,
            list_of_creature_types,
        }
    }
}

} // verus!
