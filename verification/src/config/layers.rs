//! The two layers of the keyboards that have no more than two.
use vstd::prelude::*;

verus! {

/// Which of the two layers is active.
#[derive(Clone, Copy, Debug, PartialEq, Eq, Structural)]
pub enum Layer {
    Base,
    Upper,
}

impl Layer {
    /// The number of the layer in a keymap.
    pub open spec fn spec_index(self) -> usize {
        match self {
            Layer::Base => 0,
            Layer::Upper => 1,
        }
    }

    /// The number of the layer in a keymap.
    pub fn index(self) -> (index: usize)
        ensures
            index == self.spec_index(),
    {
        match self {
            Layer::Base => 0,
            Layer::Upper => 1,
        }
    }
}

} // verus!
