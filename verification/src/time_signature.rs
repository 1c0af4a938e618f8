use vstd::prelude::*;

use crate::duration::PrimitiveDuration;

verus! {

/// The symbol a time signature is printed with, when it has one.
#[derive(Clone, Debug)]
pub enum TimeSignatureSymbol {
    CommonTime,
    CutTime,
    Custom(String),
}

/// A time signature: the number of notes in a measure and the beat value.
///
/// Equality compares the numbers only; the printed symbol is ignored.
#[derive(Clone, Debug)]
pub struct TimeSignature {
    pub notes: u64,
    pub beat_value: u64,
    pub symbol: Option<TimeSignatureSymbol>,
}

impl TimeSignature {
    /// The 4/4 time signature.
    pub fn common_time() -> (r: Self)
        ensures
            r.notes == 4 && r.beat_value == 4,
            r.symbol matches Some(s) && s is CommonTime,
    {
        Self { notes: 4, beat_value: 4, symbol: Some(TimeSignatureSymbol::CommonTime) }
    }

    /// The 2/2 time signature.
    pub fn cut_time() -> (r: Self)
        ensures
            r.notes == 2 && r.beat_value == 2,
            r.symbol matches Some(s) && s is CutTime,
    {
        Self { notes: 2, beat_value: 2, symbol: Some(TimeSignatureSymbol::CutTime) }
    }

    /// A time signature with the given note count and beat value.
    pub fn new(notes: u64, beat_value: u64) -> (r: Self)
        ensures
            r.notes == notes,
            r.beat_value == beat_value,
            r.symbol is None,
    {
        Self { notes, beat_value, symbol: None }
    }

    /// A simple time signature: `beats` beats of the given value.
    pub fn simple(beats: u64, value: PrimitiveDuration) -> (r: Self)
        ensures
            r.notes == beats,
            r.beat_value == value.value_spec(),
            r.symbol is None,
    {
        Self::new(beats, value.value())
    }

    /// A compound time signature: `beats` dotted beats, so three notes of
    /// the given value per beat.
    pub fn compound(beats: u64, value: PrimitiveDuration) -> (r: Self)
        requires
            beats * 3 <= u64::MAX,
        ensures
            r.notes == beats * 3,
            r.beat_value == value.value_spec(),
            r.symbol is None,
    {
        Self::new(beats * 3, value.value())
    }

    /// Whether the time signature is compound: its note count divides into
    /// threes.
    pub fn is_compound(&self) -> (r: bool)
        ensures
            r == (self.notes % 3 == 0),
    {
        self.notes % 3 == 0
    }

    /// Whether the time signature is simple.
    pub fn is_simple(&self) -> (r: bool)
        ensures
            r == (self.notes % 3 != 0),
    {
        !self.is_compound()
    }

    /// The number of beats in a measure: for a compound signature the
    /// number of dotted notes, a third of the note count.
    pub fn beats(&self) -> (r: u64)
        ensures
            r == if self.notes % 3 == 0 {
                self.notes / 3
            } else {
                self.notes
            },
    {
        if self.is_compound() {
            self.notes / 3
        } else {
            self.notes
        }
    }

    /// The beat value as a primitive duration; only the seven named note
    /// counts are valid beat values.
    pub fn value(&self) -> (r: PrimitiveDuration)
        requires
            PrimitiveDuration::valid_value(self.beat_value),
        ensures
            r.value_spec() == self.beat_value,
    {
        match PrimitiveDuration::try_from_value(self.beat_value) {
            Ok(d) => d,
            Err(_) => unreached(),
        }
    }
}

impl PartialEq for TimeSignature {
    fn eq(&self, other: &Self) -> bool {
        self.notes == other.notes && self.beat_value == other.beat_value
    }
}

impl vstd::std_specs::cmp::PartialEqSpecImpl for TimeSignature {
    open spec fn obeys_eq_spec() -> bool {
        true
    }

    open spec fn eq_spec(&self, other: &TimeSignature) -> bool {
        self.notes == other.notes && self.beat_value == other.beat_value
    }
}

} // verus!
