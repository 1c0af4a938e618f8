use vstd::prelude::*;

use crate::accidental::Accidental;
use crate::chord::{rotated_spec, Chord, Inversion};
use crate::key::{scale_spec, Key, Scale};
use crate::note::Note;
use crate::scale_degree::ScaleDegree;
use crate::tonality::Tonality;

verus! {

/// A chord symbol relative to a key: a diatonic degree, a triad quality, an
/// inversion, and optional added scale degrees such as a seventh.
#[derive(Clone, Debug)]
pub struct RomanNumeral {
    pub degree: u8,
    pub quality: Tonality,
    pub inversion: Inversion,
    pub additional_notes: Vec<ScaleDegree>,
}

/// `note` with its accidental overridden by `quality`, unless the override
/// is `Unmarked`.
pub open spec fn override_accidental_spec(note: Note, quality: Accidental) -> Note {
    if quality == Accidental::Unmarked {
        note
    } else {
        Note { accidental: quality, ..note }
    }
}

impl RomanNumeral {
    /// A well-formed symbol: a diatonic degree, at most one added degree
    /// (making a triad or a seventh chord), itself diatonic.
    pub open spec fn wf_spec(self) -> bool {
        &&& 1 <= self.degree <= 7
        &&& self.additional_notes@.len() <= 1
        &&& forall|i: int|
            0 <= i < self.additional_notes@.len() ==> 1 <= (
            #[trigger] self.additional_notes@[i]).degree <= 7
    }

    /// The chord tones of this symbol in `key` before inversion: the degree,
    /// its third and its fifth taken from the scale, then any added degrees,
    /// with their accidental overrides applied.
    pub open spec fn chord_base_notes_spec(self, key: Key) -> Seq<Note> {
        let scale = scale_spec(key);
        let head = seq![
            scale[self.degree - 1],
            scale[(self.degree + 1) as int % 7],
            scale[(self.degree + 3) as int % 7],
        ];
        head + Seq::new(
            self.additional_notes@.len(),
            |i: int|
                override_accidental_spec(
                    scale[(self.degree + self.additional_notes@[i].degree - 1) as int % 7],
                    self.additional_notes@[i].quality,
                ),
        )
    }

    /// How many places the realized chord is rotated for this inversion.
    pub open spec fn rotation_spec(self) -> int {
        self.inversion.value_for_spec(3 + self.additional_notes@.len() as int)
    }

    /// The realized chord of this symbol in `key`: the base notes rotated
    /// into the requested inversion, so element 0 is the bass.
    pub open spec fn chord_spec(self, key: Key) -> Seq<Note> {
        rotated_spec(self.chord_base_notes_spec(key), self.rotation_spec())
    }

    pub fn triad(degree: u8, quality: Tonality, inversion: Inversion) -> (r: Self)
        ensures
            r.degree == degree,
            r.quality == quality,
            r.inversion == inversion,
            r.additional_notes@ =~= Seq::<ScaleDegree>::empty(),
    {
        Self { degree, quality, inversion, additional_notes: Vec::new() }
    }

    /// The quality of the triad on `degree` of a major key.
    pub open spec fn major_quality_spec(degree: u8) -> Tonality {
        if degree == 1 || degree == 4 || degree == 5 {
            Tonality::Major
        } else if degree == 7 {
            Tonality::Diminished
        } else {
            Tonality::Minor
        }
    }

    /// The diatonic triad on `degree` of a major key.
    pub fn major_chord(degree: u8, inversion: Inversion) -> (r: Self)
        requires
            1 <= degree <= 7,
        ensures
            r.degree == degree,
            r.quality == Self::major_quality_spec(degree),
            r.inversion == inversion,
            r.additional_notes@ =~= Seq::<ScaleDegree>::empty(),
    {
        match degree {
            1 => Self::triad(degree, Tonality::Major, inversion),
            2 => Self::triad(degree, Tonality::Minor, inversion),
            3 => Self::triad(degree, Tonality::Minor, inversion),
            4 => Self::triad(degree, Tonality::Major, inversion),
            5 => Self::triad(degree, Tonality::Major, inversion),
            6 => Self::triad(degree, Tonality::Minor, inversion),
            _ => Self::triad(degree, Tonality::Diminished, inversion),
        }
    }

    /// The quality of the triad on `degree` of a minor key.
    pub open spec fn minor_quality_spec(degree: u8) -> Tonality {
        if degree == 1 || degree == 4 || degree == 5 {
            Tonality::Minor
        } else if degree == 2 {
            Tonality::Diminished
        } else {
            Tonality::Major
        }
    }

    /// The diatonic triad on `degree` of a minor key.
    pub fn minor_chord(degree: u8, inversion: Inversion) -> (r: Self)
        requires
            1 <= degree <= 7,
        ensures
            r.degree == degree,
            r.quality == Self::minor_quality_spec(degree),
            r.inversion == inversion,
            r.additional_notes@ =~= Seq::<ScaleDegree>::empty(),
    {
        match degree {
            1 => Self::triad(degree, Tonality::Minor, inversion),
            2 => Self::triad(degree, Tonality::Diminished, inversion),
            3 => Self::triad(degree, Tonality::Major, inversion),
            4 => Self::triad(degree, Tonality::Minor, inversion),
            5 => Self::triad(degree, Tonality::Minor, inversion),
            6 => Self::triad(degree, Tonality::Major, inversion),
            _ => Self::triad(degree, Tonality::Major, inversion),
        }
    }

    /// A seventh chord: the triad on `degree` with the seventh added.
    pub fn seventh_chord(degree: u8, quality: Tonality, inversion: Inversion) -> (r: Self)
        ensures
            r.degree == degree,
            r.quality == quality,
            r.inversion == inversion,
            r.additional_notes@ =~= seq![
                ScaleDegree { degree: 7u8, quality: Accidental::Unmarked },
            ],
    {
        let mut additional_notes: Vec<ScaleDegree> = Vec::new();
        additional_notes.push(ScaleDegree::new(7, Accidental::Unmarked));
        Self { degree, quality, inversion, additional_notes }
    }

    /// Realizes this symbol against `key`: the chord tones drawn from the
    /// scale, rotated into the requested inversion so element 0 is the bass.
    pub fn chord(&self, key: &Key) -> (r: Chord)
        requires
            self.wf_spec(),
            key matches Key::Diatonic { signature, root } ==> root.octave < 255,
            forall|i: int|
                0 <= i < self.rotation_spec() ==> Note::id_in_range(
                    (#[trigger] self.chord_base_notes_spec(*key)[i]).id_spec() + 12,
                ),
        ensures
            r.notes@ == self.chord_spec(*key),
    {
        let scale = Scale::from_key(key);
        let id1: usize = self.degree as usize - 1;
        let id2: usize = ((self.degree + 2) as usize - 1) % 7;
        let id3: usize = ((self.degree + 4) as usize - 1) % 7;
        let mut notes: Vec<Note> = Vec::new();
        notes.push(scale.notes[id1]);
        notes.push(scale.notes[id2]);
        notes.push(scale.notes[id3]);
        let n_extra = self.additional_notes.len();
        let mut i: usize = 0;
        while i < n_extra
            invariant
                self.wf_spec(),
                i <= n_extra == self.additional_notes@.len(),
                scale.notes@ == scale_spec(*key),
                scale.notes@.len() >= 7,
                notes@.len() == 3 + i,
                notes@[0] == self.chord_base_notes_spec(*key)[0],
                notes@[1] == self.chord_base_notes_spec(*key)[1],
                notes@[2] == self.chord_base_notes_spec(*key)[2],
                forall|j: int|
                    3 <= j < 3 + i ==> #[trigger] notes@[j] == self.chord_base_notes_spec(
                        *key,
                    )[j],
            decreases n_extra - i,
        {
            let additional = self.additional_notes[i];
            let id: u8 = (self.degree + additional.degree - 1) % 7;
            let base = scale.notes[id as usize];
            let note = match additional.quality {
                Accidental::Unmarked => base,
                _ => Note { alphabet: base.alphabet, accidental: additional.quality, octave: base.octave },
            };
            notes.push(note);
            i = i + 1;
        }
        proof {
            let cb = self.chord_base_notes_spec(*key);
            assert(notes@ =~= cb);
        }
        let chord = Chord::new(notes);
        let rotation = self.inversion.value_for(3 + n_extra as u8);
        chord.rotate_by(rotation as usize)
    }
}

impl Default for RomanNumeral {
    fn default() -> (r: Self)
        ensures
            r.degree == 1,
            r.quality == Tonality::Major,
            r.inversion.0 == 0,
            r.additional_notes@ =~= Seq::<ScaleDegree>::empty(),
    {
        Self {
            degree: 1,
            quality: Tonality::Major,
            inversion: Inversion::root(),
            additional_notes: Vec::new(),
        }
    }
}

} // verus!
