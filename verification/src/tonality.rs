use vstd::prelude::*;

verus! {

/// The quality of a triad.
#[derive(Copy, Clone, Debug, PartialEq, Eq, Structural)]
pub enum Tonality {
    Major,
    Minor,
    Diminished,
    Augmented,
}

} // verus!
