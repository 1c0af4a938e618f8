//! Time-related types for scores: positions in measures and beats.

use vstd::prelude::*;

use crate::duration::PrimitiveDuration;

verus! {

/// A measure number within a piece.
#[derive(Debug, Clone, Copy, PartialEq, Eq, Structural)]
pub struct Measure(pub usize);

impl Measure {
    pub fn new(measure: usize) -> (r: Self)
        ensures
            r.0 == measure,
    {
        Self(measure)
    }

    pub fn value(&self) -> (r: usize)
        ensures
            r == self.0,
    {
        self.0
    }
}

/// A beat number within a measure.
#[derive(Debug, Clone, Copy, PartialEq, Eq, Structural)]
pub struct Beat(pub usize);

impl Beat {
    pub fn new(beat: usize) -> (r: Self)
        ensures
            r.0 == beat,
    {
        Self(beat)
    }

    pub fn value(&self) -> (r: usize)
        ensures
            r == self.0,
    {
        self.0
    }
}

/// A position within a beat: a count of fractional note values.
#[derive(Debug, Clone, Copy, PartialEq, Eq, Structural)]
pub struct BeatFraction {
    pub numerator: usize,
    pub denominator: PrimitiveDuration,
}

/// The fully-reduced form of a beat fraction: halve the numerator and
/// double the duration as long as the numerator is even and the
/// denominator has not reached a whole note.
pub open spec fn simplified_spec(numerator: int, denominator: u64) -> (int, u64)
    decreases denominator,
{
    if denominator <= 1 {
        (numerator, denominator)
    } else if numerator % 2 == 0 {
        simplified_spec(numerator / 2, denominator / 2)
    } else {
        (numerator, denominator)
    }
}

impl BeatFraction {
    pub fn new(numerator: usize, denominator: PrimitiveDuration) -> (r: Self)
        ensures
            r.numerator == numerator,
            r.denominator == denominator,
    {
        Self { numerator, denominator }
    }

    /// This fraction reduced: while the numerator is even and the
    /// denominator is not yet a whole note, both are halved in value.
    pub fn simplify(&self) -> (r: Self)
        requires
            self.denominator.value_spec() >= 1,
        ensures
            r.numerator as int == simplified_spec(
                self.numerator as int,
                self.denominator.value_spec(),
            ).0,
            r.denominator.value_spec() == simplified_spec(
                self.numerator as int,
                self.denominator.value_spec(),
            ).1,
    {
        let mut numerator = self.numerator;
        let mut denominator = self.denominator;
        while numerator % 2 == 0 && denominator.value() != 1
            invariant
                denominator.value_spec() >= 1,
                simplified_spec(numerator as int, denominator.value_spec()) == simplified_spec(
                    self.numerator as int,
                    self.denominator.value_spec(),
                ),
            decreases denominator.value_spec(),
        {
            numerator = numerator / 2;
            denominator = denominator.double();
        }
        Self { numerator, denominator }
    }
}

} // verus!
