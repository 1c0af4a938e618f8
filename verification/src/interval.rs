use vstd::prelude::*;

verus! {

/// An interval, stored as the number of half-steps between two notes.
#[derive(Debug, Clone, Copy, PartialEq, Eq, Structural)]
pub struct Interval(pub u8);

impl Interval {
    pub fn new(half_steps: u8) -> (r: Self)
        ensures
            r.0 == half_steps,
    {
        Self(half_steps)
    }

    pub fn unison() -> (r: Self)
        ensures
            r.0 == 0,
    {
        Self(0)
    }

    pub fn minor_second() -> (r: Self)
        ensures
            r.0 == 1,
    {
        Self(1)
    }

    pub fn major_second() -> (r: Self)
        ensures
            r.0 == 2,
    {
        Self(2)
    }

    pub fn minor_third() -> (r: Self)
        ensures
            r.0 == 3,
    {
        Self(3)
    }

    pub fn major_third() -> (r: Self)
        ensures
            r.0 == 4,
    {
        Self(4)
    }

    pub fn perfect_fourth() -> (r: Self)
        ensures
            r.0 == 5,
    {
        Self(5)
    }

    pub fn tritone() -> (r: Self)
        ensures
            r.0 == 6,
    {
        Self(6)
    }

    pub fn perfect_fifth() -> (r: Self)
        ensures
            r.0 == 7,
    {
        Self(7)
    }

    pub fn minor_sixth() -> (r: Self)
        ensures
            r.0 == 8,
    {
        Self(8)
    }

    pub fn major_sixth() -> (r: Self)
        ensures
            r.0 == 9,
    {
        Self(9)
    }

    pub fn minor_seventh() -> (r: Self)
        ensures
            r.0 == 10,
    {
        Self(10)
    }

    pub fn major_seventh() -> (r: Self)
        ensures
            r.0 == 11,
    {
        Self(11)
    }

    pub fn augmented_fifth() -> (r: Self)
        ensures
            r.0 == 8,
    {
        Self(8)
    }

    pub fn octave() -> (r: Self)
        ensures
            r.0 == 12,
    {
        Self(12)
    }
}

} // verus!
