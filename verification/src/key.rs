use vstd::prelude::*;

use crate::accidental::Accidental;
use crate::alphabet::Alphabet;
use crate::key_signature::KeySignature;
use crate::note::Note;

verus! {

/// A key: either the chromatic collection, or a diatonic key given by a
/// signature and a root note.
#[derive(Clone, Debug)]
pub enum Key {
    Chromatic,
    Diatonic { signature: KeySignature, root: Note },
}

/// The accidental and count of sharps or flats of the major key on `root`,
/// or `None` when no major key has that spelling as its root.
pub open spec fn major_signature_spec(root: Note) -> Option<(Accidental, int)> {
    match (root.alphabet, root.accidental) {
        (Alphabet::C, Accidental::Natural) => Some((Accidental::Sharp, 0)),
        (Alphabet::G, Accidental::Natural) => Some((Accidental::Sharp, 1)),
        (Alphabet::D, Accidental::Natural) => Some((Accidental::Sharp, 2)),
        (Alphabet::A, Accidental::Natural) => Some((Accidental::Sharp, 3)),
        (Alphabet::E, Accidental::Natural) => Some((Accidental::Sharp, 4)),
        (Alphabet::B, Accidental::Natural) => Some((Accidental::Sharp, 5)),
        (Alphabet::F, Accidental::Sharp) => Some((Accidental::Sharp, 6)),
        (Alphabet::C, Accidental::Sharp) => Some((Accidental::Sharp, 7)),
        (Alphabet::F, Accidental::Natural) => Some((Accidental::Flat, 1)),
        (Alphabet::B, Accidental::Flat) => Some((Accidental::Flat, 2)),
        (Alphabet::E, Accidental::Flat) => Some((Accidental::Flat, 3)),
        (Alphabet::A, Accidental::Flat) => Some((Accidental::Flat, 4)),
        (Alphabet::D, Accidental::Flat) => Some((Accidental::Flat, 5)),
        (Alphabet::G, Accidental::Flat) => Some((Accidental::Flat, 6)),
        (Alphabet::C, Accidental::Flat) => Some((Accidental::Flat, 7)),
        _ => None,
    }
}

/// The accidental and count of sharps or flats of the minor key on `root`,
/// or `None` when no minor key has that spelling as its root.
pub open spec fn minor_signature_spec(root: Note) -> Option<(Accidental, int)> {
    match (root.alphabet, root.accidental) {
        (Alphabet::A, Accidental::Natural) => Some((Accidental::Sharp, 0)),
        (Alphabet::E, Accidental::Natural) => Some((Accidental::Sharp, 1)),
        (Alphabet::B, Accidental::Natural) => Some((Accidental::Sharp, 2)),
        (Alphabet::F, Accidental::Sharp) => Some((Accidental::Sharp, 3)),
        (Alphabet::C, Accidental::Sharp) => Some((Accidental::Sharp, 4)),
        (Alphabet::G, Accidental::Sharp) => Some((Accidental::Sharp, 5)),
        (Alphabet::D, Accidental::Sharp) => Some((Accidental::Sharp, 6)),
        (Alphabet::A, Accidental::Sharp) => Some((Accidental::Sharp, 7)),
        (Alphabet::D, Accidental::Natural) => Some((Accidental::Flat, 1)),
        (Alphabet::G, Accidental::Flat) => Some((Accidental::Flat, 2)),
        (Alphabet::C, Accidental::Flat) => Some((Accidental::Flat, 3)),
        (Alphabet::F, Accidental::Flat) => Some((Accidental::Flat, 4)),
        (Alphabet::B, Accidental::Flat) => Some((Accidental::Flat, 5)),
        (Alphabet::E, Accidental::Flat) => Some((Accidental::Flat, 6)),
        (Alphabet::A, Accidental::Flat) => Some((Accidental::Flat, 7)),
        _ => None,
    }
}

/// `k` is the diatonic key rooted at `root` whose signature has the given
/// accidental and count.
pub open spec fn is_diatonic_key(k: Key, root: Note, sig: (Accidental, int)) -> bool {
    match k {
        Key::Diatonic { signature, root: r } => {
            &&& r == root
            &&& signature.accidental == sig.0
            &&& signature.notes@ == KeySignature::taken(
                if sig.0 == Accidental::Sharp {
                    KeySignature::sharp_order_spec()
                } else {
                    KeySignature::flat_order_spec()
                },
                sig.1,
            )
        },
        Key::Chromatic => false,
    }
}

impl Key {
    pub fn new_chromatic() -> (r: Self)
        ensures
            r == Key::Chromatic,
    {
        Self::Chromatic
    }

    pub fn new_diatonic(signature: KeySignature, root: Note) -> (r: Self)
        ensures
            r == (Key::Diatonic { signature, root }),
    {
        Self::Diatonic { signature, root }
    }

    /// The major key rooted at `root`, for the fifteen conventional major-key
    /// spellings; `None` for any other spelling.
    pub fn new_major(root: Note) -> (r: Option<Self>)
        ensures
            r.is_some() <==> major_signature_spec(root).is_some(),
            r.is_some() ==> is_diatonic_key(r.unwrap(), root, major_signature_spec(root).unwrap()),
    {
        match (root.alphabet, root.accidental) {
            (Alphabet::C, Accidental::Natural) => Some(
                Self::new_diatonic(KeySignature::new_sharp(0), root),
            ),
            (Alphabet::G, Accidental::Natural) => Some(
                Self::new_diatonic(KeySignature::new_sharp(1), root),
            ),
            (Alphabet::D, Accidental::Natural) => Some(
                Self::new_diatonic(KeySignature::new_sharp(2), root),
            ),
            (Alphabet::A, Accidental::Natural) => Some(
                Self::new_diatonic(KeySignature::new_sharp(3), root),
            ),
            (Alphabet::E, Accidental::Natural) => Some(
                Self::new_diatonic(KeySignature::new_sharp(4), root),
            ),
            (Alphabet::B, Accidental::Natural) => Some(
                Self::new_diatonic(KeySignature::new_sharp(5), root),
            ),
            (Alphabet::F, Accidental::Sharp) => Some(
                Self::new_diatonic(KeySignature::new_sharp(6), root),
            ),
            (Alphabet::C, Accidental::Sharp) => Some(
                Self::new_diatonic(KeySignature::new_sharp(7), root),
            ),
            (Alphabet::F, Accidental::Natural) => Some(
                Self::new_diatonic(KeySignature::new_flat(1), root),
            ),
            (Alphabet::B, Accidental::Flat) => Some(
                Self::new_diatonic(KeySignature::new_flat(2), root),
            ),
            (Alphabet::E, Accidental::Flat) => Some(
                Self::new_diatonic(KeySignature::new_flat(3), root),
            ),
            (Alphabet::A, Accidental::Flat) => Some(
                Self::new_diatonic(KeySignature::new_flat(4), root),
            ),
            (Alphabet::D, Accidental::Flat) => Some(
                Self::new_diatonic(KeySignature::new_flat(5), root),
            ),
            (Alphabet::G, Accidental::Flat) => Some(
                Self::new_diatonic(KeySignature::new_flat(6), root),
            ),
            (Alphabet::C, Accidental::Flat) => Some(
                Self::new_diatonic(KeySignature::new_flat(7), root),
            ),
            _ => None,
        }
    }

    /// The minor key rooted at `root`, for the fifteen conventional minor-key
    /// spellings; `None` for any other spelling.
    pub fn new_minor(root: Note) -> (r: Option<Self>)
        ensures
            r.is_some() <==> minor_signature_spec(root).is_some(),
            r.is_some() ==> is_diatonic_key(r.unwrap(), root, minor_signature_spec(root).unwrap()),
    {
        match (root.alphabet, root.accidental) {
            (Alphabet::A, Accidental::Natural) => Some(
                Self::new_diatonic(KeySignature::new_sharp(0), root),
            ),
            (Alphabet::E, Accidental::Natural) => Some(
                Self::new_diatonic(KeySignature::new_sharp(1), root),
            ),
            (Alphabet::B, Accidental::Natural) => Some(
                Self::new_diatonic(KeySignature::new_sharp(2), root),
            ),
            (Alphabet::F, Accidental::Sharp) => Some(
                Self::new_diatonic(KeySignature::new_sharp(3), root),
            ),
            (Alphabet::C, Accidental::Sharp) => Some(
                Self::new_diatonic(KeySignature::new_sharp(4), root),
            ),
            (Alphabet::G, Accidental::Sharp) => Some(
                Self::new_diatonic(KeySignature::new_sharp(5), root),
            ),
            (Alphabet::D, Accidental::Sharp) => Some(
                Self::new_diatonic(KeySignature::new_sharp(6), root),
            ),
            (Alphabet::A, Accidental::Sharp) => Some(
                Self::new_diatonic(KeySignature::new_sharp(7), root),
            ),
            (Alphabet::D, Accidental::Natural) => Some(
                Self::new_diatonic(KeySignature::new_flat(1), root),
            ),
            (Alphabet::G, Accidental::Flat) => Some(
                Self::new_diatonic(KeySignature::new_flat(2), root),
            ),
            (Alphabet::C, Accidental::Flat) => Some(
                Self::new_diatonic(KeySignature::new_flat(3), root),
            ),
            (Alphabet::F, Accidental::Flat) => Some(
                Self::new_diatonic(KeySignature::new_flat(4), root),
            ),
            (Alphabet::B, Accidental::Flat) => Some(
                Self::new_diatonic(KeySignature::new_flat(5), root),
            ),
            (Alphabet::E, Accidental::Flat) => Some(
                Self::new_diatonic(KeySignature::new_flat(6), root),
            ),
            (Alphabet::A, Accidental::Flat) => Some(
                Self::new_diatonic(KeySignature::new_flat(7), root),
            ),
            _ => None,
        }
    }
}

/// The letter `n` steps after `a` in the cycle A..G.
pub open spec fn alphabet_plus(a: Alphabet, n: nat) -> Alphabet
    decreases n,
{
    if n == 0 {
        a
    } else {
        alphabet_plus(a, (n - 1) as nat).next_spec()
    }
}

/// The octave number written on the `i`-th note of the diatonic scale rooted
/// at `root`: the octave field is bumped when the letter wraps to A.
pub open spec fn scale_octave_spec(root: Note, i: nat) -> int
    decreases i,
{
    if i == 0 {
        root.octave as int
    } else if alphabet_plus(root.alphabet, i) == Alphabet::A {
        scale_octave_spec(root, (i - 1) as nat) + 1
    } else {
        scale_octave_spec(root, (i - 1) as nat)
    }
}

/// The `i`-th note of the diatonic scale for `signature` rooted at `root`.
pub open spec fn diatonic_note_spec(signature: KeySignature, root: Note, i: nat) -> Note {
    let alphabet = alphabet_plus(root.alphabet, i);
    Note {
        alphabet,
        accidental: if signature.notes@.contains(alphabet) {
            signature.accidental
        } else {
            Accidental::Natural
        },
        octave: scale_octave_spec(root, i) as u8,
    }
}

/// The ordered notes of the scale of `key`: seven diatonic notes, one per
/// letter, or the twelve chromatic notes from A4.
pub open spec fn scale_spec(key: Key) -> Seq<Note> {
    match key {
        Key::Chromatic => Seq::new(12, |i: int| Note::from_id_spec(i)),
        Key::Diatonic { signature, root } => Seq::new(
            7,
            |i: int| diatonic_note_spec(signature, root, i as nat),
        ),
    }
}

/// Over one pass through the seven letters, the octave field is bumped at
/// most once: it is bumped exactly at the single position whose letter is A
/// (if any, past the root), so every octave in the scale is the root's or one
/// above, and the note just before the bump still carries the root's octave.
/// Over one pass through the seven letters, the octave field is bumped at
/// most once: it is bumped exactly at the single position whose letter is A
/// (if any, past the root), so every octave in the scale is the root's or one
/// above, and the note just before the bump still carries the root's octave.
#[verifier::rlimit(100)]
pub proof fn lemma_scale_octave(root: Note)
    ensures
        forall|j: nat| j < 7 ==> root.octave <= #[trigger] scale_octave_spec(root, j) <= root.octave + 1,
        forall|i: nat|
            1 <= i < 7 && #[trigger] alphabet_plus(root.alphabet, i) == Alphabet::A
                ==> scale_octave_spec(root, (i - 1) as nat) == root.octave,
{
    let a = root.alphabet;
    assert(alphabet_plus(a, 0) == a);
    assert(alphabet_plus(a, 1) == alphabet_plus(a, 0).next_spec());
    assert(alphabet_plus(a, 2) == alphabet_plus(a, 1).next_spec());
    assert(alphabet_plus(a, 3) == alphabet_plus(a, 2).next_spec());
    assert(alphabet_plus(a, 4) == alphabet_plus(a, 3).next_spec());
    assert(alphabet_plus(a, 5) == alphabet_plus(a, 4).next_spec());
    assert(alphabet_plus(a, 6) == alphabet_plus(a, 5).next_spec());
    assert(scale_octave_spec(root, 0) == root.octave);
    match a {
        Alphabet::A => {
            assert(scale_octave_spec(root, 1) == root.octave);
            assert(scale_octave_spec(root, 2) == root.octave);
            assert(scale_octave_spec(root, 3) == root.octave);
            assert(scale_octave_spec(root, 4) == root.octave);
            assert(scale_octave_spec(root, 5) == root.octave);
            assert(scale_octave_spec(root, 6) == root.octave);
        },
        Alphabet::B => {
            assert(scale_octave_spec(root, 1) == root.octave);
            assert(scale_octave_spec(root, 2) == root.octave);
            assert(scale_octave_spec(root, 3) == root.octave);
            assert(scale_octave_spec(root, 4) == root.octave);
            assert(scale_octave_spec(root, 5) == root.octave);
            assert(scale_octave_spec(root, 6) == root.octave + 1);
        },
        Alphabet::C => {
            assert(scale_octave_spec(root, 1) == root.octave);
            assert(scale_octave_spec(root, 2) == root.octave);
            assert(scale_octave_spec(root, 3) == root.octave);
            assert(scale_octave_spec(root, 4) == root.octave);
            assert(scale_octave_spec(root, 5) == root.octave + 1);
            assert(scale_octave_spec(root, 6) == root.octave + 1);
        },
        Alphabet::D => {
            assert(scale_octave_spec(root, 1) == root.octave);
            assert(scale_octave_spec(root, 2) == root.octave);
            assert(scale_octave_spec(root, 3) == root.octave);
            assert(scale_octave_spec(root, 4) == root.octave + 1);
            assert(scale_octave_spec(root, 5) == root.octave + 1);
            assert(scale_octave_spec(root, 6) == root.octave + 1);
        },
        Alphabet::E => {
            assert(scale_octave_spec(root, 1) == root.octave);
            assert(scale_octave_spec(root, 2) == root.octave);
            assert(scale_octave_spec(root, 3) == root.octave + 1);
            assert(scale_octave_spec(root, 4) == root.octave + 1);
            assert(scale_octave_spec(root, 5) == root.octave + 1);
            assert(scale_octave_spec(root, 6) == root.octave + 1);
        },
        Alphabet::F => {
            assert(scale_octave_spec(root, 1) == root.octave);
            assert(scale_octave_spec(root, 2) == root.octave + 1);
            assert(scale_octave_spec(root, 3) == root.octave + 1);
            assert(scale_octave_spec(root, 4) == root.octave + 1);
            assert(scale_octave_spec(root, 5) == root.octave + 1);
            assert(scale_octave_spec(root, 6) == root.octave + 1);
        },
        Alphabet::G => {
            assert(scale_octave_spec(root, 1) == root.octave + 1);
            assert(scale_octave_spec(root, 2) == root.octave + 1);
            assert(scale_octave_spec(root, 3) == root.octave + 1);
            assert(scale_octave_spec(root, 4) == root.octave + 1);
            assert(scale_octave_spec(root, 5) == root.octave + 1);
            assert(scale_octave_spec(root, 6) == root.octave + 1);
        },
    }
    assert forall|j: nat| j < 7 implies root.octave <= #[trigger] scale_octave_spec(root, j)
        <= root.octave + 1 by {
        assert(j == 0 || j == 1 || j == 2 || j == 3 || j == 4 || j == 5 || j == 6);
    }
    assert forall|i: nat|
        1 <= i < 7 && #[trigger] alphabet_plus(root.alphabet, i)
            == Alphabet::A implies scale_octave_spec(root, (i - 1) as nat) == root.octave by {
        assert(i == 1 || i == 2 || i == 3 || i == 4 || i == 5 || i == 6);
    }
}

/// An ordered run of notes: the scale of a key.
#[derive(Clone, Debug)]
pub struct Scale {
    pub notes: Vec<Note>,
}

impl Scale {
    /// The scale of `key`, one note per letter for a diatonic key.
    pub fn from_key(key: &Key) -> (r: Scale)
        requires
            key matches Key::Diatonic { signature, root } ==> root.octave < 255,
        ensures
            r.notes@ == scale_spec(*key),
    {
        match key {
            Key::Chromatic => {
                let mut notes: Vec<Note> = Vec::new();
                let mut i: usize = 0;
                while i < 12
                    invariant
                        i <= 12,
                        notes@.len() == i,
                        forall|j: int| 0 <= j < i ==> notes@[j] == Note::from_id_spec(j),
                    decreases 12 - i,
                {
                    notes.push(Note::from_id(crate::pitch::Pitch(i as i16)));
                    i = i + 1;
                }
                proof {
                    assert(notes@ =~= scale_spec(*key));
                }
                Scale { notes }
            },
            Key::Diatonic { signature, root } => {
                proof {
                    lemma_scale_octave(*root);
                }
                let mut notes: Vec<Note> = Vec::new();
                let mut current: Alphabet = root.alphabet;
                let mut i: usize = 0;
                while i < 7
                    invariant
                        i <= 7,
                        root.octave < 255,
                        current == alphabet_plus(root.alphabet, i as nat),
                        notes@.len() == i,
                        forall|j: int|
                            0 <= j < i ==> notes@[j] == diatonic_note_spec(
                                *signature,
                                *root,
                                j as nat,
                            ),
                        i > 0 ==> notes@[i - 1].octave == scale_octave_spec(*root, (i - 1) as nat),
                        forall|j: nat|
                            j < 7 ==> root.octave <= #[trigger] scale_octave_spec(*root, j)
                                <= root.octave + 1,
                        forall|k: nat|
                            1 <= k < 7 && #[trigger] alphabet_plus(root.alphabet, k) == Alphabet::A
                                ==> scale_octave_spec(*root, (k - 1) as nat) == root.octave,
                    decreases 7 - i,
                {
                    let octave: u8 = if i == 0 {
                        root.octave
                    } else if current == Alphabet::A {
                        proof {
                            assert(scale_octave_spec(*root, i as nat) == scale_octave_spec(
                                *root,
                                (i - 1) as nat,
                            ) + 1);
                            assert(scale_octave_spec(*root, (i - 1) as nat) == root.octave);
                        }
                        notes[i - 1].octave + 1
                    } else {
                        notes[i - 1].octave
                    };
                    let accidental = if signature.has_letter(current) {
                        signature.accidental
                    } else {
                        Accidental::Natural
                    };
                    notes.push(Note { alphabet: current, accidental, octave });
                    current = current.next();
                    i = i + 1;
                }
                proof {
                    assert(notes@ =~= scale_spec(*key));
                }
                Scale { notes }
            },
        }
    }
}

} // verus!
