use vstd::prelude::*;

verus! {

/// A pitch class: a chromatic position folded into a single octave (0-11).
#[derive(Copy, Clone, Debug, PartialEq, Eq, Structural)]
pub struct RelativePitch(pub u8);

impl RelativePitch {
    pub fn new(pitch: u8) -> (r: Self)
        ensures
            r.0 == pitch % 12,
    {
        Self(pitch % 12)
    }
}

/// Systems of relative pitch, such as scale degrees, that have a root and a
/// notion of distance between two members.
pub trait RelativeSystem where Self: core::marker::Sized {
    fn root() -> Self;

    fn base(i: RelativePitch) -> RelativePitch;

    fn interval(first: Self, second: Self) -> crate::interval::Interval;
}

/// An absolute chromatic position: the number of half-steps from A4.
#[derive(Copy, Clone, Debug, PartialEq, Eq, Structural)]
pub struct Pitch(pub i16);

impl Pitch {
    /// The pitch class of `p`: its chromatic position folded into one octave,
    /// always in 0..12 whatever the sign of `p`.
    pub open spec fn class_spec(p: int) -> int {
        p % 12
    }

    pub fn new(pitch: i16) -> (r: Self)
        ensures
            r.0 == pitch,
    {
        Self(pitch)
    }

    pub fn increment(&self) -> (r: Self)
        requires
            self.0 < i16::MAX,
        ensures
            r.0 == self.0 + 1,
    {
        Self(self.0 + 1)
    }

    pub fn decrement(&self) -> (r: Self)
        requires
            self.0 > i16::MIN,
        ensures
            r.0 == self.0 - 1,
    {
        Self(self.0 - 1)
    }

    pub fn octave_up(&self) -> (r: Self)
        requires
            self.0 + 12 <= i16::MAX,
        ensures
            r.0 == self.0 + 12,
    {
        Self(self.0 + 12)
    }

    pub fn octave_down(&self) -> (r: Self)
        requires
            i16::MIN <= self.0 - 12,
        ensures
            r.0 == self.0 - 12,
    {
        Self(self.0 - 12)
    }

    /// The pitch class of this pitch. Two pitches are enharmonically related
    /// exactly when their classes and octaves coincide; `simple` discards the
    /// octave and keeps the class.
    pub fn simple(&self) -> (r: RelativePitch)
        ensures
            r.0 == Self::class_spec(self.0 as int),
    {
        let rem: i16 = self.0 % 12;
        if rem < 0 {
            RelativePitch((rem + 12) as u8)
        } else {
            RelativePitch(rem as u8)
        }
    }
}

} // verus!
