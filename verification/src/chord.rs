use vstd::prelude::*;

use crate::interval::Interval;
use crate::note::Note;
use crate::tonality::Tonality;

verus! {

/// A chord: a collection of notes played simultaneously for the same
/// duration.
#[derive(Clone, Debug)]
pub struct Chord {
    pub notes: Vec<Note>,
}

/// An inversion: which chord tone occupies the bass. Root position is 0.
#[derive(Copy, Clone, Debug)]
pub struct Inversion(pub u8);

impl Default for Inversion {
    fn default() -> (r: Self)
        ensures
            r.0 == 0,
    {
        Self(0)
    }
}

impl Inversion {
    /// Creates a new inversion; 0 means root position.
    pub fn new(inversion: u8) -> (r: Self)
        ensures
            r.0 == inversion,
    {
        Self(inversion)
    }

    pub fn value(&self) -> (r: u8)
        ensures
            r == self.0,
    {
        self.0
    }

    /// This inversion reduced modulo the size of a chord.
    pub open spec fn value_for_spec(self, size: int) -> int {
        (self.0 as int) % size
    }

    /// The inversion reduced modulo `size`, the number of chord tones.
    pub fn value_for(&self, size: u8) -> (r: u8)
        requires
            size > 0,
        ensures
            r == self.value_for_spec(size as int),
            r < size,
    {
        self.0 % size
    }

    pub fn root() -> (r: Self)
        ensures
            r.0 == 0,
    {
        Self(0)
    }

    pub fn first() -> (r: Self)
        ensures
            r.0 == 1,
    {
        Self(1)
    }

    pub fn second() -> (r: Self)
        ensures
            r.0 == 2,
    {
        Self(2)
    }

    pub fn third() -> (r: Self)
        ensures
            r.0 == 3,
    {
        Self(3)
    }
}

/// `s` rotated `n` places to the left, each moved note raised an octave and
/// respelled canonically.
pub open spec fn rotated_spec(s: Seq<Note>, n: int) -> Seq<Note> {
    s.subrange(n, s.len() as int) + Seq::new(n as nat, |i: int| Note::from_id_spec(s[i].id_spec() + 12))
}

/// The notes of a triad in root position: the root, its third and its fifth,
/// the upper two respelled canonically.
pub open spec fn triad_root_position_spec(tonality: Tonality, root: Note) -> Seq<Note> {
    seq![
        root,
        Note::from_id_spec(root.id_spec() + third_of(tonality)),
        Note::from_id_spec(root.id_spec() + fifth_of(tonality)),
    ]
}

/// Half-steps from the root to the third of a triad of this quality.
pub open spec fn third_of(tonality: Tonality) -> int {
    match tonality {
        Tonality::Major => 4,
        Tonality::Minor => 3,
        Tonality::Diminished => 3,
        Tonality::Augmented => 4,
    }
}

/// Half-steps from the root to the fifth of a triad of this quality.
pub open spec fn fifth_of(tonality: Tonality) -> int {
    match tonality {
        Tonality::Major => 7,
        Tonality::Minor => 7,
        Tonality::Diminished => 6,
        Tonality::Augmented => 8,
    }
}

/// The inversion-rotated triad on `root`.
pub open spec fn triad_from_root_spec(tonality: Tonality, root: Note, inversion: Inversion) -> Seq<
    Note,
> {
    rotated_spec(triad_root_position_spec(tonality, root), inversion.value_for_spec(3))
}

/// The root a triad must be built on so that `base` is its lowest tone under
/// the given inversion.
pub open spec fn triad_base_root_spec(tonality: Tonality, base: Note, inversion: Inversion) -> Note {
    let inv = inversion.value_for_spec(3);
    if inv == 0 {
        base
    } else if inv == 1 {
        Note::from_id_spec(base.id_spec() - third_of(tonality))
    } else {
        Note::from_id_spec(base.id_spec() - fifth_of(tonality))
    }
}

impl Chord {
    /// Creates a new chord with the given notes.
    pub fn new(notes: Vec<Note>) -> (r: Self)
        ensures
            r.notes@ == notes@,
    {
        Self { notes }
    }

    /// Creates a new chord holding the single note provided.
    pub fn single(note: Note) -> (r: Self)
        ensures
            r.notes@ =~= seq![note],
    {
        Self { notes: vec![note] }
    }

    /// The chord rotated one place: the old bass note moves to the top,
    /// unchanged.
    pub fn rotate(&self) -> (r: Self)
        requires
            self.notes@.len() > 0,
        ensures
            r.notes@ == self.notes@.drop_first().push(self.notes@[0]),
    {
        let len = self.notes.len();
        let mut notes: Vec<Note> = Vec::new();
        let mut i: usize = 1;
        while i < len
            invariant
                1 <= i <= len == self.notes@.len(),
                notes@ =~= self.notes@.subrange(1, i as int),
            decreases len - i,
        {
            notes.push(self.notes[i]);
            i = i + 1;
        }
        notes.push(self.notes[0]);
        proof {
            assert(notes@ =~= self.notes@.drop_first().push(self.notes@[0]));
        }
        Self { notes }
    }

    /// The chord rotated `n` places: each moved note is raised an octave and
    /// respelled canonically.
    pub fn rotate_by(&self, n: usize) -> (r: Self)
        requires
            n <= self.notes@.len(),
            forall|i: int| 0 <= i < n ==> Note::id_in_range(#[trigger] self.notes@[i].id_spec() + 12),
        ensures
            r.notes@ == rotated_spec(self.notes@, n as int),
    {
        let len = self.notes.len();
        let mut notes: Vec<Note> = Vec::new();
        let mut i: usize = n;
        while i < len
            invariant
                n <= i <= len == self.notes@.len(),
                notes@ =~= self.notes@.subrange(n as int, i as int),
            decreases len - i,
        {
            notes.push(self.notes[i]);
            i = i + 1;
        }
        let mut j: usize = 0;
        while j < n
            invariant
                0 <= j <= n <= len == self.notes@.len(),
                forall|i: int|
                    0 <= i < n ==> Note::id_in_range(#[trigger] self.notes@[i].id_spec() + 12),
                notes@.len() == len - n + j,
                notes@.subrange(0, (len - n) as int) =~= self.notes@.subrange(
                    n as int,
                    len as int,
                ),
                forall|i: int|
                    0 <= i < j ==> notes@[len - n + i] == Note::from_id_spec(
                        #[trigger] self.notes@[i].id_spec() + 12,
                    ),
            decreases n - j,
        {
            notes.push(self.notes[j].add_interval(Interval::octave()));
            j = j + 1;
        }
        proof {
            assert(notes@ =~= rotated_spec(self.notes@, n as int));
        }
        Self { notes }
    }

    /// A triad with the given quality rooted at `root`, rotated into
    /// `inversion`.
    pub fn triad_from_root(tonality: Tonality, root: Note, inversion: Inversion) -> (r: Self)
        requires
            -3 <= root.id_spec() <= 3003,
        ensures
            r.notes@ == triad_from_root_spec(tonality, root, inversion),
    {
        let inv = inversion.value_for(3);
        let mut notes: Vec<Note> = Vec::new();
        notes.push(root);
        match tonality {
            Tonality::Major => {
                notes.push(root.add_interval(Interval::major_third()));
                notes.push(root.add_interval(Interval::perfect_fifth()));
            },
            Tonality::Minor => {
                notes.push(root.add_interval(Interval::minor_third()));
                notes.push(root.add_interval(Interval::perfect_fifth()));
            },
            Tonality::Diminished => {
                notes.push(root.add_interval(Interval::minor_third()));
                notes.push(root.add_interval(Interval::tritone()));
            },
            Tonality::Augmented => {
                notes.push(root.add_interval(Interval::major_third()));
                notes.push(root.add_interval(Interval::augmented_fifth()));
            },
        }
        proof {
            assert(notes@ =~= triad_root_position_spec(tonality, root));
        }
        let chord = Self { notes };
        chord.rotate_by(inv as usize)
    }

    /// A triad with the given quality whose lowest tone under `inversion` is
    /// `base`.
    pub fn triad_from_base(tonality: Tonality, base: Note, inversion: Inversion) -> (r: Self)
        requires
            inversion.value_for_spec(3) == 0 ==> -3 <= base.id_spec() <= 3003,
            inversion.value_for_spec(3) != 0 ==> 8 <= base.id_spec() <= 3006,
        ensures
            r.notes@ == triad_from_root_spec(
                tonality,
                triad_base_root_spec(tonality, base, inversion),
                inversion,
            ),
    {
        let inv = inversion.value_for(3);
        match inv {
            0 => Self::triad_from_root(tonality, base, Inversion::root()),
            1 => {
                let step = match tonality {
                    Tonality::Major => Interval::major_third(),
                    Tonality::Minor => Interval::minor_third(),
                    Tonality::Diminished => Interval::minor_third(),
                    Tonality::Augmented => Interval::major_third(),
                };
                let root = base.sub_interval(step);
                Self::triad_from_root(tonality, root, Inversion::first())
            },
            _ => {
                let step = match tonality {
                    Tonality::Major => Interval::perfect_fifth(),
                    Tonality::Minor => Interval::perfect_fifth(),
                    Tonality::Diminished => Interval::tritone(),
                    Tonality::Augmented => Interval::augmented_fifth(),
                };
                let root = base.sub_interval(step);
                Self::triad_from_root(tonality, root, Inversion::second())
            },
        }
    }
}

impl PartialEq for Chord {
    fn eq(&self, other: &Self) -> bool {
        if self.notes.len() != other.notes.len() {
            return false;
        }
        let len = self.notes.len();
        let mut i: usize = 0;
        while i < len
            invariant
                i <= len == self.notes@.len() == other.notes@.len(),
                forall|j: int|
                    0 <= j < i ==> (#[trigger] self.notes@[j]).id_spec() == other.notes@[j].id_spec(),
            decreases len - i,
        {
            let a = self.notes[i].id();
            let b = other.notes[i].id();
            if a.0 != b.0 {
                return false;
            }
            i = i + 1;
        }
        true
    }
}

impl vstd::std_specs::cmp::PartialEqSpecImpl for Chord {
    open spec fn obeys_eq_spec() -> bool {
        true
    }

    open spec fn eq_spec(&self, other: &Chord) -> bool {
        &&& self.notes@.len() == other.notes@.len()
        &&& forall|j: int|
            0 <= j < self.notes@.len() ==> (#[trigger] self.notes@[j]).id_spec()
                == other.notes@[j].id_spec()
    }
}

} // verus!
