use vstd::prelude::*;

verus! {

/// The range of a spell: a distance, and the unit or kind it is given in.
#[derive(Clone, Debug)]
pub struct RangeData {
    pub value: Option<i64>,
    pub unit: Option<String>,
}

} // verus!
