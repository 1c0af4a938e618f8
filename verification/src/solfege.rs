//! Solfege: a distinct syllable for each note of a musical scale.

use vstd::prelude::*;

use crate::accidental::Accidental;
use crate::alphabet::Alphabet;
use crate::note::Note;
use crate::pitch::{Pitch, RelativePitch};

verus! {

/// The syllables of the solfege system, chromatic alterations included.
///
/// The numeric representation of a syllable is its pitch offset from Do,
/// not its position in this list; use [`SolfegeSyllable::into_u8`].
/// Equality is by pitch offset, so enharmonic syllables such as Di and Ra
/// compare equal.
#[derive(Copy, Clone, Debug)]
pub enum SolfegeSyllable {
    Do,
    Di,
    Ra,
    Re,
    Ri,
    Me,
    Mi,
    Fa,
    Fi,
    Se,
    So,
    Si,
    Le,
    La,
    Li,
    Te,
    Ti,
}

impl SolfegeSyllable {
    /// The pitch offset of this syllable from Do, in half-steps.
    pub open spec fn offset_spec(self) -> int {
        match self {
            Self::Do => 0,
            Self::Di | Self::Ra => 1,
            Self::Re => 2,
            Self::Ri | Self::Me => 3,
            Self::Mi => 4,
            Self::Fa => 5,
            Self::Fi | Self::Se => 6,
            Self::So => 7,
            Self::Si | Self::Le => 8,
            Self::La => 9,
            Self::Li | Self::Te => 10,
            Self::Ti => 11,
        }
    }

    pub fn into_u8(self) -> (r: u8)
        ensures
            r as int == self.offset_spec(),
    {
        match self {
            Self::Do => 0,
            Self::Di | Self::Ra => 1,
            Self::Re => 2,
            Self::Ri | Self::Me => 3,
            Self::Mi => 4,
            Self::Fa => 5,
            Self::Fi | Self::Se => 6,
            Self::So => 7,
            Self::Si | Self::Le => 8,
            Self::La => 9,
            Self::Li | Self::Te => 10,
            Self::Ti => 11,
        }
    }

    /// The printed name of this syllable.
    pub open spec fn name_spec(self) -> Seq<char> {
        match self {
            Self::Do => "Do"@,
            Self::Di => "Di"@,
            Self::Ra => "Ra"@,
            Self::Re => "Re"@,
            Self::Ri => "Ri"@,
            Self::Me => "Me"@,
            Self::Mi => "Mi"@,
            Self::Fa => "Fa"@,
            Self::Fi => "Fi"@,
            Self::Se => "Se"@,
            Self::So => "So"@,
            Self::Si => "Si"@,
            Self::Le => "Le"@,
            Self::La => "La"@,
            Self::Li => "Li"@,
            Self::Te => "Te"@,
            Self::Ti => "Ti"@,
        }
    }

    /// The syllable as text.
    pub fn name(&self) -> (r: &'static str)
        ensures
            r@ == self.name_spec(),
    {
        proof {
            reveal_strlit("Di");
            reveal_strlit("Do");
            reveal_strlit("Fa");
            reveal_strlit("Fi");
            reveal_strlit("La");
            reveal_strlit("Le");
            reveal_strlit("Li");
            reveal_strlit("Me");
            reveal_strlit("Mi");
            reveal_strlit("Ra");
            reveal_strlit("Re");
            reveal_strlit("Ri");
            reveal_strlit("Se");
            reveal_strlit("Si");
            reveal_strlit("So");
            reveal_strlit("Te");
            reveal_strlit("Ti");
        }
        match self {
            Self::Do => "Do",
            Self::Di => "Di",
            Self::Ra => "Ra",
            Self::Re => "Re",
            Self::Ri => "Ri",
            Self::Me => "Me",
            Self::Mi => "Mi",
            Self::Fa => "Fa",
            Self::Fi => "Fi",
            Self::Se => "Se",
            Self::So => "So",
            Self::Si => "Si",
            Self::Le => "Le",
            Self::La => "La",
            Self::Li => "Li",
            Self::Te => "Te",
            Self::Ti => "Ti",
        }
    }

    /// The syllable a half-step below, wrapping from Do to Ti.
    pub fn decrement(&self) -> (r: Self)
        ensures
            r.offset_spec() == if self.offset_spec() == 0 {
                11int
            } else {
                self.offset_spec() - 1
            },
    {
        match self {
            Self::Do => Self::Ti,
            Self::Di | Self::Ra => Self::Do,
            Self::Re => Self::Di,
            Self::Ri | Self::Me => Self::Re,
            Self::Mi => Self::Me,
            Self::Fa => Self::Mi,
            Self::Fi | Self::Se => Self::Fa,
            Self::So => Self::Fi,
            Self::Si | Self::Le => Self::So,
            Self::La => Self::Si,
            Self::Li | Self::Te => Self::La,
            Self::Ti => Self::Li,
        }
    }

    /// The syllable a half-step above, wrapping from Ti to Do.
    pub fn increment(&self) -> (r: Self)
        ensures
            r.offset_spec() == if self.offset_spec() == 11 {
                0int
            } else {
                self.offset_spec() + 1
            },
    {
        match self {
            Self::Do => Self::Di,
            Self::Di | Self::Ra => Self::Re,
            Self::Re => Self::Ri,
            Self::Ri | Self::Me => Self::Mi,
            Self::Mi => Self::Fa,
            Self::Fa => Self::Fi,
            Self::Fi | Self::Se => Self::So,
            Self::So => Self::Si,
            Self::Si | Self::Le => Self::La,
            Self::La => Self::Li,
            Self::Li | Self::Te => Self::Ti,
            Self::Ti => Self::Do,
        }
    }
}

impl PartialEq for SolfegeSyllable {
    fn eq(&self, other: &Self) -> bool {
        let a = self.into_u8();
        let b = other.into_u8();
        a == b
    }
}

impl vstd::std_specs::cmp::PartialEqSpecImpl for SolfegeSyllable {
    open spec fn obeys_eq_spec() -> bool {
        true
    }

    open spec fn eq_spec(&self, other: &SolfegeSyllable) -> bool {
        self.offset_spec() == other.offset_spec()
    }
}

impl Eq for SolfegeSyllable {}

/// A movable-Do system: the root note that Do stands on.
#[derive(Copy, Clone, Debug)]
pub struct Moveable(pub Note);

/// The fixed-Do system: a movable system rooted at C.
pub fn fixed() -> (r: Moveable)
    ensures
        r.0 == (Note { alphabet: Alphabet::C, accidental: Accidental::Natural, octave: 4u8 }),
{
    Moveable(Note::new(Alphabet::C, Accidental::Natural, 4))
}

/// A syllable within a movable-Do system.
#[derive(Copy, Clone, Debug)]
pub struct Solfege {
    pub syllable: SolfegeSyllable,
    /// The solfege root that Do stands on.
    pub kind: Moveable,
}

impl Solfege {
    pub fn new(syllable: SolfegeSyllable, kind: Moveable) -> (r: Self)
        ensures
            r.syllable == syllable,
            r.kind == kind,
    {
        Self { syllable, kind }
    }

    /// The pitch class of this solfege syllable: the root's chromatic
    /// position plus the syllable's offset, folded into one octave.
    pub fn id(&self) -> (r: RelativePitch)
        ensures
            r.0 == Pitch::class_spec(self.kind.0.id_spec() + self.syllable.offset_spec()),
    {
        let root = self.kind.0.id();
        let offset = self.syllable.into_u8();
        Pitch(root.0 + offset as i16).simple()
    }
}

} // verus!
