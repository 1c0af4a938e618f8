use vstd::prelude::*;

use crate::note::Note;

verus! {

/// An accidental attached to a note letter.
///
/// `Unmarked` and `Natural` both leave the letter's pitch untouched; they
/// differ only in how the note is displayed.
#[derive(Copy, Clone, Debug, Hash, PartialEq, Eq, Structural)]
pub enum Accidental {
    Unmarked,
    DoubleFlat,
    Flat,
    Natural,
    Sharp,
    DoubleSharp,
}

impl Accidental {
    /// How many half-steps this accidental shifts a letter's pitch.
    pub open spec fn offset_spec(self) -> int {
        match self {
            Accidental::Unmarked => 0,
            Accidental::DoubleFlat => -2,
            Accidental::Flat => -1,
            Accidental::Natural => 0,
            Accidental::Sharp => 1,
            Accidental::DoubleSharp => 2,
        }
    }

    /// The unicode glyph for this accidental; empty for `Unmarked` and `Natural`.
    pub fn unicode(&self) -> (r: &'static str)
        ensures
            r@ == self.unicode_spec(),
    {
        proof {
            reveal_strlit("");
            reveal_strlit("\u{1d12b}");
            reveal_strlit("\u{266d}");
            reveal_strlit("\u{266f}");
            reveal_strlit("\u{1d12a}");
        }
        match self {
            Self::Unmarked => "",
            Self::DoubleFlat => "\u{1d12b}",
            Self::Flat => "\u{266d}",
            Self::Natural => "",
            Self::Sharp => "\u{266f}",
            Self::DoubleSharp => "\u{1d12a}",
        }
    }

    pub open spec fn unicode_spec(self) -> Seq<char> {
        match self {
            Accidental::Unmarked => Seq::<char>::empty(),
            Accidental::DoubleFlat => seq!['\u{1d12b}'],
            Accidental::Flat => seq!['\u{266d}'],
            Accidental::Natural => Seq::<char>::empty(),
            Accidental::Sharp => seq!['\u{266f}'],
            Accidental::DoubleSharp => seq!['\u{1d12a}'],
        }
    }
}

impl Accidental {
    /// Applies this accidental to an already-spelled note, shifting it by
    /// the accidental's offset and respelling canonically; `Unmarked` and
    /// `Natural` leave the note untouched.
    pub fn apply(self, rhs: Note) -> (r: Note)
        requires
            self.offset_spec() != 0 ==> Note::id_in_range(rhs.id_spec() + self.offset_spec()),
        ensures
            r.id_spec() == rhs.id_spec() + self.offset_spec(),
            self.offset_spec() == 0 ==> r == rhs,
            self.offset_spec() != 0 ==> r == Note::from_id_spec(
                rhs.id_spec() + self.offset_spec(),
            ),
    {
        match self {
            Self::Unmarked => rhs,
            Self::DoubleFlat => rhs.decrement_by(2),
            Self::Flat => rhs.decrement(),
            Self::Natural => rhs,
            Self::Sharp => rhs.increment(),
            Self::DoubleSharp => rhs.increment_by(2),
        }
    }
}

impl Default for Accidental {
    fn default() -> (r: Self)
        ensures
            r == Accidental::Natural,
    {
        Self::Natural
    }
}

} // verus!
