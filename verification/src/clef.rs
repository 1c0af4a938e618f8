use vstd::prelude::*;

verus! {

/// A clef.
#[derive(Debug, Clone, Copy, PartialEq, Eq, Structural)]
#[non_exhaustive]
pub enum Clef {
    Treble,
    Bass,
}

} // verus!
