use vstd::prelude::*;

verus! {

/// Which edition of the rules a listing keeps: the legacy one, the remaster, or both.
#[derive(Clone, Copy, Debug, PartialEq, Eq, Structural, Hash)]
pub enum GameSystemVersionEnum {
    Legacy,
    Remaster,
    Any,
}

impl Default for GameSystemVersionEnum {
    fn default() -> (r: Self)
        ensures
            r == GameSystemVersionEnum::Any,
    {
        GameSystemVersionEnum::Any
    }
}

/// The display name: the variant's name.
pub open spec fn version_text(v: GameSystemVersionEnum) -> Seq<char> {
    match v {
        GameSystemVersionEnum::Legacy => "Legacy"@,
        GameSystemVersionEnum::Remaster => "Remaster"@,
        GameSystemVersionEnum::Any => "Any"@,
    }
}

impl GameSystemVersionEnum {
    pub fn to_string(&self) -> (r: String)
        ensures
            r@ == version_text(*self),
    {
        match self {
            GameSystemVersionEnum::Legacy => String::from_str("Legacy"),
            GameSystemVersionEnum::Remaster => String::from_str("Remaster"),
            GameSystemVersionEnum::Any => String::from_str("Any"),
        }
    }
}

} // verus!
