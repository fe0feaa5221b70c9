use vstd::prelude::*;

verus! {

/// The game whose tables are queried: each table name starts with its prefix.
#[derive(Clone, Copy, Debug, PartialEq, Eq, Structural, Hash)]
pub enum GameSystem {
    Pathfinder,
    Starfinder,
}

/// The table prefix of a game system: `pf` or `sf`.
pub open spec fn gs_text(gs: GameSystem) -> Seq<char> {
    match gs {
        GameSystem::Pathfinder => "pf"@,
        GameSystem::Starfinder => "sf"@,
    }
}

impl GameSystem {
    /// The table prefix: `pf` or `sf`.
    pub fn to_str(&self) -> (r: &'static str)
        ensures
            r@ == gs_text(*self),
    {
        match self {
            GameSystem::Pathfinder => "pf",
            GameSystem::Starfinder => "sf",
        }
    }

    pub fn to_string(&self) -> (r: String)
        ensures
            r@ == gs_text(*self),
    {
        String::from_str(self.to_str())
    }
}

} // verus!
