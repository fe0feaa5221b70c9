use crate::models::creature_metadata::alignment_enum::AlignmentEnum;
use crate::models::creature_metadata::rarity_enum::RarityEnum;
use crate::models::creature_metadata::size_enum::SizeEnum;
use vstd::prelude::*;

verus! {

/// A number of dice of one size, such as 2d6.
#[derive(Clone, Copy, Debug, PartialEq, Eq, Structural, Hash)]
pub struct Dice {
    pub n_of_dices: i16,
    pub dice_size: i16,
}

impl Dice {
    /// The dice, when both the number and the size are known.
    pub fn from_optional_dice_number_and_size(n_of_dices: Option<i16>, dice_size: Option<i16>) -> (r: Option<Dice>)
        ensures
            r == (match (n_of_dices, dice_size) {
                (Some(n), Some(s)) => Some(Dice { n_of_dices: n, dice_size: s }),
                _ => None::<Dice>,
            }),
    {
        match (n_of_dices, dice_size) {
            (Some(n), Some(s)) => Some(Dice { n_of_dices: n, dice_size: s }),
            _ => None,
        }
    }
}

/// A page of a listing: the index of its first row, and its size (negative: no limit).
#[derive(Clone, Copy, Debug, PartialEq, Eq, Structural, Hash)]
pub struct PaginatedRequest {
    pub cursor: u32,
    pub page_size: i16,
}

/// The filters of the flat creature listing; each one that is set must pass.
#[derive(Clone, Debug)]
pub struct FieldFilters {
    pub name_filter: Option<String>,
    pub family_filter: Option<String>,
    pub rarity_filter: Option<RarityEnum>,
    pub size_filter: Option<SizeEnum>,
    pub alignment_filter: Option<AlignmentEnum>,
    pub is_melee_filter: Option<bool>,
    pub is_ranged_filter: Option<bool>,
    pub is_spell_caster_filter: Option<bool>,
    pub min_hp_filter: Option<i64>,
    pub max_hp_filter: Option<i64>,
    pub min_level_filter: Option<i8>,
    pub max_level_filter: Option<i8>,
}

} // verus!
