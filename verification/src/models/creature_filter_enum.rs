use vstd::prelude::*;

verus! {

/// The creature fields an encounter can be filtered on, in the flat model.
#[derive(Clone, Copy, Debug, PartialEq, Eq, Structural, Hash)]
pub enum CreatureFilter {
    Level,
    Family,
    Size,
    Rarity,
    Melee,
    Ranged,
    SpellCaster,
    Traits,
    Alignment,
    CreatureTypes,
    CreatureRoles,
}

/// The key name of a filter.
pub open spec fn filter_key_text(f: CreatureFilter) -> Seq<char> {
    match f {
        CreatureFilter::Level => "level"@,
        CreatureFilter::Family => "family"@,
        CreatureFilter::Size => "size"@,
        CreatureFilter::Rarity => "rarity"@,
        CreatureFilter::Melee => "is_melee"@,
        CreatureFilter::Ranged => "is_ranged"@,
        CreatureFilter::SpellCaster => "is_spell_caster"@,
        CreatureFilter::Traits => "traits"@,
        CreatureFilter::CreatureTypes => "creature_types"@,
        CreatureFilter::CreatureRoles => "creature_roles"@,
        CreatureFilter::Alignment => "alignment"@,
    }
}

impl CreatureFilter {
    /// The key name of the filter.
    pub fn to_string(&self) -> (r: String)
        ensures
            r@ == filter_key_text(*self),
    {
        match self {
            CreatureFilter::Level => String::from_str("level"),
            CreatureFilter::Family => String::from_str("family"),
            CreatureFilter::Size => String::from_str("size"),
            CreatureFilter::Rarity => String::from_str("rarity"),
            CreatureFilter::Melee => String::from_str("is_melee"),
            CreatureFilter::Ranged => String::from_str("is_ranged"),
            CreatureFilter::SpellCaster => String::from_str("is_spell_caster"),
            CreatureFilter::Traits => String::from_str("traits"),
            CreatureFilter::CreatureTypes => String::from_str("creature_types"),
            CreatureFilter::CreatureRoles => String::from_str("creature_roles"),
            CreatureFilter::Alignment => String::from_str("alignment"),
        }
    }
}

} // verus!
