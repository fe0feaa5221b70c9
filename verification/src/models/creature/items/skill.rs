use vstd::prelude::*;

verus! {

/// A skill of a creature and its modifier.
#[derive(Clone, Debug)]
pub struct Skill {
    pub name: String,
    pub description: Option<String>,
    pub modifier: i64,
    pub proficiency: i64,
}

} // verus!
