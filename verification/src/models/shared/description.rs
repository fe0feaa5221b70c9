use vstd::prelude::*;

verus! {

/// A text description, as stored.
#[derive(Clone, Debug)]
pub struct Description {
    pub text: String,
}

} // verus!
