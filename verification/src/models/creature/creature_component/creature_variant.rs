use crate::models::creature::creature_metadata::variant_enum::CreatureVariant;
use vstd::prelude::*;

verus! {

/// Which variant a creature is, its level as that variant, and its archive link.
#[derive(Clone, Debug)]
pub struct CreatureVariantData {
    pub variant: CreatureVariant,
    pub level: i64,
    pub archive_link: Option<String>,
}

} // verus!
