use vstd::prelude::*;

verus! {

/// A sense of a creature, such as darkvision, with its range when it has one.
#[derive(Clone, Debug)]
pub struct Sense {
    pub id: i64,
    pub name: String,
    pub range: Option<i64>,
    pub acuity: Option<String>,
}

} // verus!
