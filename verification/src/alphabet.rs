use vstd::prelude::*;

verus! {

/// A letter of the musical alphabet (A-G).
///
/// This should not be used to represent a pitch; see `Note` for absolute
/// pitches and `Solfege` for relative ones.
#[derive(Copy, Clone, Debug, Hash, PartialEq, Eq, Structural)]
pub enum Alphabet {
    A,
    B,
    C,
    D,
    E,
    F,
    G,
}

impl Alphabet {
    /// The next letter in the alphabet, wrapping from G back to A.
    pub fn next(&self) -> (r: Self)
        ensures
            r == self.next_spec(),
    {
        match self {
            Alphabet::A => Alphabet::B,
            Alphabet::B => Alphabet::C,
            Alphabet::C => Alphabet::D,
            Alphabet::D => Alphabet::E,
            Alphabet::E => Alphabet::F,
            Alphabet::F => Alphabet::G,
            Alphabet::G => Alphabet::A,
        }
    }

    /// The letter that follows `self` in the cycle A, B, C, D, E, F, G, A.
    pub open spec fn next_spec(self) -> Self {
        match self {
            Alphabet::A => Alphabet::B,
            Alphabet::B => Alphabet::C,
            Alphabet::C => Alphabet::D,
            Alphabet::D => Alphabet::E,
            Alphabet::E => Alphabet::F,
            Alphabet::F => Alphabet::G,
            Alphabet::G => Alphabet::A,
        }
    }
}

} // verus!
