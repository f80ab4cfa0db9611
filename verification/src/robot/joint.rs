use vstd::prelude::*;

verus! {

/// A joint of the arm, identified by its position along the chain
/// (the base joint has id 0).
#[derive(Debug, Clone, Copy, PartialEq, Eq)]
pub struct Joint {
    pub id: usize,
}

impl Joint {
    pub fn new(id: usize) -> (joint: Self)
        ensures
            joint.id == id,
    {
        Self { id }
    }
}

} // verus!
