use vstd::prelude::*;

verus! {

/// The creature fields whose possible values can be listed and filtered on.
#[derive(Clone, Copy, Debug, PartialEq, Eq, Structural, Hash)]
pub enum CreatureFilter {
    Level,
    Family,
    Alignment,
    Size,
    Rarity,
    Melee,
    Ranged,
    Spellcaster,
    Sources,
    Traits,
    CreatureTypes,
    CreatureRoles,
    PathfinderVersion,
}

/// The column or key name of a filter.
pub open spec fn creature_filter_text(f: CreatureFilter) -> Seq<char> {
    match f {
        CreatureFilter::Level => "level"@,
        CreatureFilter::Family => "family"@,
        CreatureFilter::Size => "size"@,
        CreatureFilter::Rarity => "rarity"@,
        CreatureFilter::Melee => "is_melee"@,
        CreatureFilter::Ranged => "is_ranged"@,
        CreatureFilter::Spellcaster => "is_spell_caster"@,
        CreatureFilter::Traits => "traits"@,
        CreatureFilter::CreatureTypes => "cr_type"@,
        CreatureFilter::CreatureRoles => "creature_roles"@,
        CreatureFilter::Alignment => "alignment"@,
        CreatureFilter::PathfinderVersion => "remaster"@,
        CreatureFilter::Sources => "sources"@,
    }
}

impl CreatureFilter {
    /// The column or key name of the filter.
    pub fn to_string(&self) -> (r: String)
        ensures
            r@ == creature_filter_text(*self),
    {
        match self {
            CreatureFilter::Level => String::from_str("level"),
            CreatureFilter::Family => String::from_str("family"),
            CreatureFilter::Size => String::from_str("size"),
            CreatureFilter::Rarity => String::from_str("rarity"),
            CreatureFilter::Melee => String::from_str("is_melee"),
            CreatureFilter::Ranged => String::from_str("is_ranged"),
            CreatureFilter::Spellcaster => String::from_str("is_spell_caster"),
            CreatureFilter::Traits => String::from_str("traits"),
            CreatureFilter::CreatureTypes => String::from_str("cr_type"),
            CreatureFilter::CreatureRoles => String::from_str("creature_roles"),
            CreatureFilter::Alignment => String::from_str("alignment"),
            CreatureFilter::PathfinderVersion => String::from_str("remaster"),
            CreatureFilter::Sources => String::from_str("sources"),
        }
    }
}

/// The distinct values found in the creature table, per field.
#[derive(Clone, Debug, Default, PartialEq, Eq)]
pub struct FieldsUniqueValuesStruct {
    pub list_of_levels: Vec<String>,
    pub list_of_families: Vec<String>,
    pub list_of_traits: Vec<String>,
    pub list_of_sources: Vec<String>,
    pub list_of_sizes: Vec<String>,
    pub list_of_rarities: Vec<String>,
}

} // verus!
