use vstd::prelude::*;

use crate::accidental::Accidental;
use crate::interval::Interval;
use crate::key::{scale_spec, Key, Scale};
use crate::note::Note;
use crate::pitch::{RelativePitch, RelativeSystem};

verus! {

/// A 1-indexed position within a diatonic scale, optionally altered by an
/// accidental.
#[derive(Copy, Clone, Debug, PartialEq, Eq, Structural)]
pub struct ScaleDegree {
    pub degree: u8,
    pub quality: Accidental,
}

/// The index of the first note of `s` whose pitch class equals `c`, or
/// `None` when no note of `s` has that class.
pub open spec fn first_class_index(s: Seq<Note>, c: int) -> Option<int>
    decreases s.len(),
{
    if s.len() == 0 {
        None
    } else if s[0].class_spec() == c {
        Some(0)
    } else {
        match first_class_index(s.drop_first(), c) {
            Some(i) => Some(i + 1),
            None => None,
        }
    }
}

/// The scale degree that `note` occupies in `key`, by pitch class: the
/// 1-indexed position of the first scale note enharmonic with `note`
/// regardless of octave, or `None` when the note is not in the scale.
pub open spec fn degree_of_note_spec(note: Note, key: Key) -> Option<ScaleDegree> {
    match first_class_index(scale_spec(key), note.class_spec()) {
        Some(i) => Some(ScaleDegree { degree: (i + 1) as u8, quality: Accidental::Unmarked }),
        None => None,
    }
}

impl ScaleDegree {
    pub fn new(degree: u8, quality: Accidental) -> (r: Self)
        requires
            degree >= 1,
        ensures
            r == (ScaleDegree { degree, quality }),
    {
        Self { degree, quality }
    }

    /// The scale degree of `note` within `key`, matched by pitch class, or
    /// `None` when `note` is not in the scale of `key`.
    pub fn from_note(note: &Note, key: &Key) -> (r: Option<Self>)
        requires
            key matches Key::Diatonic { signature, root } ==> root.octave < 255,
        ensures
            r == degree_of_note_spec(*note, *key),
    {
        let scale = Scale::from_key(key);
        let target = note.id().simple();
        let len = scale.notes.len();
        let mut i: usize = 0;
        while i < len
            invariant
                i <= len == scale.notes@.len(),
                scale.notes@ == scale_spec(*key),
                len <= 12,
                target.0 == note.class_spec(),
                forall|j: int| 0 <= j < i ==> (#[trigger] scale.notes@[j]).class_spec()
                    != note.class_spec(),
            decreases len - i,
        {
            let c = scale.notes[i].id().simple();
            if c.0 == target.0 {
                proof {
                    lemma_first_class_index(scale.notes@, note.class_spec(), i as int);
                }
                return Some(Self { degree: (i + 1) as u8, quality: Accidental::Unmarked });
            }
            i = i + 1;
        }
        proof {
            lemma_first_class_index_none(scale.notes@, note.class_spec());
        }
        None
    }
}

/// When `s[i]` is the first note of class `c`, `first_class_index` finds it.
pub(crate) proof fn lemma_first_class_index(s: Seq<Note>, c: int, i: int)
    requires
        0 <= i < s.len(),
        s[i].class_spec() == c,
        forall|j: int| 0 <= j < i ==> (#[trigger] s[j]).class_spec() != c,
    ensures
        first_class_index(s, c) == Some(i),
    decreases i,
{
    if i == 0 {
    } else {
        assert forall|j: int| 0 <= j < i - 1 implies (#[trigger] s.drop_first()[j]).class_spec()
            != c by {
            assert(s.drop_first()[j] == s[j + 1]);
        }
        assert(s.drop_first()[i - 1] == s[i]);
        lemma_first_class_index(s.drop_first(), c, i - 1);
    }
}

/// When no note of `s` has class `c`, `first_class_index` finds nothing.
proof fn lemma_first_class_index_none(s: Seq<Note>, c: int)
    requires
        forall|j: int| 0 <= j < s.len() ==> (#[trigger] s[j]).class_spec() != c,
    ensures
        first_class_index(s, c) is None,
    decreases s.len(),
{
    if s.len() == 0 {
    } else {
        assert forall|j: int|
            0 <= j < s.drop_first().len() implies (#[trigger] s.drop_first()[j]).class_spec()
            != c by {
            assert(s.drop_first()[j] == s[j + 1]);
        }
        lemma_first_class_index_none(s.drop_first(), c);
    }
}

impl RelativeSystem for ScaleDegree {
    fn root() -> Self {
        Self { degree: 1, quality: Accidental::Natural }
    }

    fn base(i: RelativePitch) -> RelativePitch {
        i
    }

    fn interval(first: Self, second: Self) -> Interval {
        if second.degree >= first.degree {
            Interval(second.degree - first.degree)
        } else {
            Interval(first.degree - second.degree)
        }
    }
}

impl Default for ScaleDegree {
    fn default() -> (r: Self)
        ensures
            r == (ScaleDegree { degree: 1, quality: Accidental::Natural }),
    {
        Self { degree: 1, quality: Accidental::Natural }
    }
}

} // verus!
