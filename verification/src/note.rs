use vstd::prelude::*;

use crate::accidental::Accidental;
use crate::alphabet::Alphabet;
use crate::interval::Interval;
use crate::pitch::Pitch;

verus! {

/// A spelled note: a letter, an accidental and an octave.
///
/// Equality is enharmonic: two differently-spelled notes at the same
/// chromatic position (see [`Note::id`]) compare equal.
#[derive(Copy, Clone, Debug, Hash)]
pub struct Note {
    pub alphabet: Alphabet,
    pub accidental: Accidental,
    pub octave: u8,
}

impl Note {
    /// Half-steps from A within one octave, for a natural letter.
    pub open spec fn letter_offset_spec(a: Alphabet) -> int {
        match a {
            Alphabet::A => 0,
            Alphabet::B => 2,
            Alphabet::C => 3,
            Alphabet::D => 5,
            Alphabet::E => 7,
            Alphabet::F => 8,
            Alphabet::G => 10,
        }
    }

    /// The chromatic position of this note: half-steps from A4.
    pub open spec fn id_spec(self) -> int {
        Self::letter_offset_spec(self.alphabet) + self.accidental.offset_spec() + (self.octave
            - 4) * 12
    }

    /// The pitch class of this note, in 0..12.
    pub open spec fn class_spec(self) -> int {
        Pitch::class_spec(self.id_spec())
    }

    /// The canonical spelling of the chromatic position `p`: naturals and
    /// sharps only, one spelling for each position.
    pub open spec fn from_id_spec(p: int) -> Note {
        let (alphabet, accidental) = Self::spelling_of_class(p % 12);
        Note { alphabet, accidental, octave: (p / 12 + 4) as u8 }
    }

    pub open spec fn spelling_of_class(rem: int) -> (Alphabet, Accidental) {
        if rem == 0 {
            (Alphabet::A, Accidental::Natural)
        } else if rem == 1 {
            (Alphabet::A, Accidental::Sharp)
        } else if rem == 2 {
            (Alphabet::B, Accidental::Natural)
        } else if rem == 3 {
            (Alphabet::C, Accidental::Natural)
        } else if rem == 4 {
            (Alphabet::C, Accidental::Sharp)
        } else if rem == 5 {
            (Alphabet::D, Accidental::Natural)
        } else if rem == 6 {
            (Alphabet::D, Accidental::Sharp)
        } else if rem == 7 {
            (Alphabet::E, Accidental::Natural)
        } else if rem == 8 {
            (Alphabet::F, Accidental::Natural)
        } else if rem == 9 {
            (Alphabet::F, Accidental::Sharp)
        } else if rem == 10 {
            (Alphabet::G, Accidental::Natural)
        } else {
            (Alphabet::G, Accidental::Sharp)
        }
    }

    /// The chromatic positions representable by `from_id`: those whose
    /// canonical spelling has an octave that fits in a byte.
    pub open spec fn id_in_range(p: int) -> bool {
        0 <= p <= 3023
    }

    pub fn new(alphabet: Alphabet, accidental: Accidental, octave: u8) -> (r: Self)
        ensures
            r == (Note { alphabet, accidental, octave }),
    {
        Self { alphabet, accidental, octave }
    }

    /// The number of half-steps from A4.
    pub fn id(&self) -> (r: Pitch)
        ensures
            r.0 == self.id_spec(),
    {
        let offset: i16 = match self.alphabet {
            Alphabet::A => 0,
            Alphabet::B => 2,
            Alphabet::C => 3,
            Alphabet::D => 5,
            Alphabet::E => 7,
            Alphabet::F => 8,
            Alphabet::G => 10,
        };
        let accidental: i16 = match self.accidental {
            Accidental::Unmarked => 0,
            Accidental::DoubleFlat => -2,
            Accidental::Flat => -1,
            Accidental::Natural => 0,
            Accidental::Sharp => 1,
            Accidental::DoubleSharp => 2,
        };
        let octave: i16 = (self.octave as i16 - 4) * 12;
        Pitch(offset + accidental + octave)
    }

    /// The note at chromatic position `id`, spelled canonically with naturals
    /// and sharps.
    pub fn from_id(id: Pitch) -> (r: Self)
        requires
            Self::id_in_range(id.0 as int),
        ensures
            r == Self::from_id_spec(id.0 as int),
            r.id_spec() == id.0,
    {
        let octave: i16 = id.0 / 12 + 4;
        let rem: i16 = id.0 % 12;
        let (alphabet, accidental) = match rem {
            0 => (Alphabet::A, Accidental::Natural),
            1 => (Alphabet::A, Accidental::Sharp),
            2 => (Alphabet::B, Accidental::Natural),
            3 => (Alphabet::C, Accidental::Natural),
            4 => (Alphabet::C, Accidental::Sharp),
            5 => (Alphabet::D, Accidental::Natural),
            6 => (Alphabet::D, Accidental::Sharp),
            7 => (Alphabet::E, Accidental::Natural),
            8 => (Alphabet::F, Accidental::Natural),
            9 => (Alphabet::F, Accidental::Sharp),
            10 => (Alphabet::G, Accidental::Natural),
            _ => (Alphabet::G, Accidental::Sharp),
        };
        Self { alphabet, accidental, octave: octave as u8 }
    }

    /// An enharmonic equivalent of this note in a simpler spelling: double
    /// accidentals are respelled canonically, everything else is kept.
    ///
    /// The exact spelling returned for a double accidental is not part of the
    /// contract beyond being enharmonically equal to the input.
    pub fn simplify(&self) -> (r: Self)
        requires
            (self.accidental == Accidental::DoubleFlat || self.accidental
                == Accidental::DoubleSharp) ==> Self::id_in_range(self.id_spec()),
        ensures
            r.id_spec() == self.id_spec(),
    {
        match self.accidental {
            Accidental::Unmarked | Accidental::Natural | Accidental::Flat | Accidental::Sharp => {
                *self
            },
            Accidental::DoubleFlat | Accidental::DoubleSharp => Self::from_id(self.id()),
        }
    }

    /// Raises the note by one half-step, respelling canonically.
    pub fn increment(&self) -> (r: Self)
        requires
            Self::id_in_range(self.id_spec() + 1),
        ensures
            r == Self::from_id_spec(self.id_spec() + 1),
            r.id_spec() == self.id_spec() + 1,
    {
        Self::from_id(self.id().increment())
    }

    /// Lowers the note by one half-step, respelling canonically.
    pub fn decrement(&self) -> (r: Self)
        requires
            Self::id_in_range(self.id_spec() - 1),
        ensures
            r == Self::from_id_spec(self.id_spec() - 1),
            r.id_spec() == self.id_spec() - 1,
    {
        Self::from_id(self.id().decrement())
    }

    /// Raises the note by `steps` half-steps, respelling canonically.
    pub fn increment_by(&self, steps: i64) -> (r: Self)
        requires
            Self::id_in_range(self.id_spec() + steps),
        ensures
            r == Self::from_id_spec(self.id_spec() + steps),
            r.id_spec() == self.id_spec() + steps,
    {
        let id = self.id();
        Self::from_id(Pitch(id.0 + steps as i16))
    }

    /// Lowers the note by `steps` half-steps, respelling canonically.
    pub fn decrement_by(&self, steps: i64) -> (r: Self)
        requires
            Self::id_in_range(self.id_spec() - steps),
        ensures
            r == Self::from_id_spec(self.id_spec() - steps),
            r.id_spec() == self.id_spec() - steps,
    {
        let id = self.id();
        Self::from_id(Pitch(id.0 - steps as i16))
    }

    /// The note `interval` half-steps above this one, respelled canonically.
    pub fn add_interval(&self, interval: Interval) -> (r: Self)
        requires
            Self::id_in_range(self.id_spec() + interval.0),
        ensures
            r == Self::from_id_spec(self.id_spec() + interval.0),
            r.id_spec() == self.id_spec() + interval.0,
    {
        let id = self.id();
        Self::from_id(Pitch(id.0 + interval.0 as i16))
    }

    /// The note `interval` half-steps below this one, respelled canonically.
    pub fn sub_interval(&self, interval: Interval) -> (r: Self)
        requires
            Self::id_in_range(self.id_spec() - interval.0),
        ensures
            r == Self::from_id_spec(self.id_spec() - interval.0),
            r.id_spec() == self.id_spec() - interval.0,
    {
        let id = self.id();
        Self::from_id(Pitch(id.0 - interval.0 as i16))
    }

    /// The interval from `other` up to this note.
    pub fn interval_from(&self, other: &Note) -> (r: Interval)
        requires
            0 <= self.id_spec() - other.id_spec() <= 255,
        ensures
            r.0 == self.id_spec() - other.id_spec(),
    {
        let a = self.id();
        let b = other.id();
        Interval((a.0 - b.0) as u8)
    }
}

impl PartialEq for Note {
    fn eq(&self, other: &Self) -> bool {
        let a = self.id();
        let b = other.id();
        a.0 == b.0
    }
}

impl vstd::std_specs::cmp::PartialEqSpecImpl for Note {
    open spec fn obeys_eq_spec() -> bool {
        true
    }

    open spec fn eq_spec(&self, other: &Note) -> bool {
        self.id_spec() == other.id_spec()
    }
}

impl Eq for Note {}

} // verus!
