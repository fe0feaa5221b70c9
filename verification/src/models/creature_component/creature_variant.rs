use crate::services::url_calculator::opt_view;
use vstd::prelude::*;

verus! {

/// The level and archive link of a creature as the variant it is shown as.
#[derive(Clone, Debug)]
pub struct CreatureVariantData {
    pub level: i8,
    pub archive_link: Option<String>,
}

impl CreatureVariantData {
    /// The variant data of a level and a link; the level is kept in eight bits, as a
    /// cast to `i8` keeps it.
    pub fn from_level_and_link(level: i64, archive_link: Option<String>) -> (r: Self)
        ensures
            r.level == level as i8,
            opt_view(r.archive_link) == opt_view(archive_link),
    {
        CreatureVariantData { level: level as i8, archive_link }
    }
}

} // verus!
