use vstd::prelude::*;

use crate::accidental::Accidental;
use crate::alphabet::Alphabet;

verus! {

/// A key signature: which letters carry an accidental, and which accidental
/// they carry (sharp signatures and flat signatures never mix).
#[derive(Clone, Debug)]
pub struct KeySignature {
    pub notes: Vec<Alphabet>,
    pub accidental: Accidental,
}

impl KeySignature {
    /// The order in which sharps are added to a signature.
    pub open spec fn sharp_order_spec() -> Seq<Alphabet> {
        seq![
            Alphabet::F,
            Alphabet::C,
            Alphabet::G,
            Alphabet::D,
            Alphabet::A,
            Alphabet::E,
            Alphabet::B,
        ]
    }

    /// The order in which flats are added to a signature.
    pub open spec fn flat_order_spec() -> Seq<Alphabet> {
        seq![
            Alphabet::B,
            Alphabet::E,
            Alphabet::A,
            Alphabet::D,
            Alphabet::G,
            Alphabet::C,
            Alphabet::F,
        ]
    }

    /// The letters of a signature with `n` sharps or flats; at most all seven.
    pub open spec fn taken(order: Seq<Alphabet>, n: int) -> Seq<Alphabet> {
        if n > 7 {
            order
        } else if n < 0 {
            Seq::empty()
        } else {
            order.take(n)
        }
    }

    /// A signature with the first `n` sharps.
    pub fn new_sharp(n: u8) -> (r: Self)
        ensures
            r.notes@ == Self::taken(Self::sharp_order_spec(), n as int),
            r.accidental == Accidental::Sharp,
    {
        let count: usize = if n > 7 {
            7
        } else {
            n as usize
        };
        let mut notes: Vec<Alphabet> = Vec::new();
        let mut i: usize = 0;
        while i < count
            invariant
                i <= count <= 7,
                count == Self::taken(Self::sharp_order_spec(), n as int).len(),
                notes@ == Self::taken(Self::sharp_order_spec(), n as int).take(i as int),
            decreases count - i,
        {
            let a = match i {
                0 => Alphabet::F,
                1 => Alphabet::C,
                2 => Alphabet::G,
                3 => Alphabet::D,
                4 => Alphabet::A,
                5 => Alphabet::E,
                _ => Alphabet::B,
            };
            notes.push(a);
            i = i + 1;
        }
        proof {
            assert(notes@ =~= Self::taken(Self::sharp_order_spec(), n as int));
        }
        Self { notes, accidental: Accidental::Sharp }
    }

    /// A signature with the first `n` flats.
    pub fn new_flat(n: u8) -> (r: Self)
        ensures
            r.notes@ == Self::taken(Self::flat_order_spec(), n as int),
            r.accidental == Accidental::Flat,
    {
        let count: usize = if n > 7 {
            7
        } else {
            n as usize
        };
        let mut notes: Vec<Alphabet> = Vec::new();
        let mut i: usize = 0;
        while i < count
            invariant
                i <= count <= 7,
                count == Self::taken(Self::flat_order_spec(), n as int).len(),
                notes@ == Self::taken(Self::flat_order_spec(), n as int).take(i as int),
            decreases count - i,
        {
            let a = match i {
                0 => Alphabet::B,
                1 => Alphabet::E,
                2 => Alphabet::A,
                3 => Alphabet::D,
                4 => Alphabet::G,
                5 => Alphabet::C,
                _ => Alphabet::F,
            };
            notes.push(a);
            i = i + 1;
        }
        proof {
            assert(notes@ =~= Self::taken(Self::flat_order_spec(), n as int));
        }
        Self { notes, accidental: Accidental::Flat }
    }

    /// Whether the letter `a` carries this signature's accidental.
    pub fn has_letter(&self, a: Alphabet) -> (r: bool)
        ensures
            r == self.notes@.contains(a),
    {
        let n = self.notes.len();
        let mut i: usize = 0;
        while i < n
            invariant
                i <= n == self.notes@.len(),
                forall|j: int| 0 <= j < i ==> self.notes@[j] != a,
            decreases n - i,
        {
            if self.notes[i] == a {
                return true;
            }
            i = i + 1;
        }
        false
    }
}

} // verus!
