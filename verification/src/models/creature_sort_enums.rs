use vstd::prelude::*;

verus! {

/// The columns the legacy creature list can be sorted by.
#[derive(Clone, Copy, Debug, PartialEq, Eq, Structural, Hash)]
pub enum SortEnum {
    Id,
    Name,
    Hp,
    Level,
    Family,
    Alignment,
    Size,
    Rarity,
}

impl Default for SortEnum {
    fn default() -> (r: Self)
        ensures
            r == SortEnum::Id,
    {
        SortEnum::Id
    }
}

/// A sort direction.
#[derive(Clone, Copy, Debug, PartialEq, Eq, Structural, Hash)]
pub enum OrderEnum {
    Ascending,
    Descending,
}

impl Default for OrderEnum {
    fn default() -> (r: Self)
        ensures
            r == OrderEnum::Ascending,
    {
        OrderEnum::Ascending
    }
}

} // verus!
