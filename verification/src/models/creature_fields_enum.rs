use vstd::prelude::*;

verus! {

/// The creature fields whose values can be listed.
#[derive(Clone, Copy, Debug, PartialEq, Eq, Structural, Hash)]
pub enum CreatureField {
    Id,
    Name,
    Level,
    Hp,
    Family,
    Alignment,
    Size,
    Rarity,
    Melee,
    Ranged,
    SpellCaster,
    Sources,
}

} // verus!
