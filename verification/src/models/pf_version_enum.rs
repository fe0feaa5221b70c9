use vstd::prelude::*;

verus! {

/// Which edition of the rules a creature filter keeps.
#[derive(Clone, Copy, Debug, PartialEq, Eq, Structural, Hash)]
pub enum PathfinderVersionEnum {
    Legacy,
    Remaster,
    Any,
}

impl Default for PathfinderVersionEnum {
    fn default() -> (r: Self)
        ensures
            r == PathfinderVersionEnum::Any,
    {
        PathfinderVersionEnum::Any
    }
}

} // verus!
