use vstd::prelude::*;

verus! {

/// An undotted note length, stored as the number of such notes in a whole
/// note: 1 for a whole note, 2 for a half note, up to 64.
#[derive(Copy, Clone, Debug, PartialEq, Eq, Structural)]
pub struct PrimitiveDuration(u64);

impl PrimitiveDuration {
    /// The inner note count of this duration.
    pub closed spec fn value_spec(self) -> u64 {
        self.0
    }

    /// The note counts that name a primitive duration.
    pub open spec fn valid_value(v: u64) -> bool {
        v == 1 || v == 2 || v == 4 || v == 8 || v == 16 || v == 32 || v == 64
    }

    /// The primitive duration with the given note count, for the seven
    /// named counts; anything else is rejected.
    pub fn try_from_value(value: u64) -> (r: Result<Self, ()>)
        ensures
            r is Ok <==> Self::valid_value(value),
            r matches Ok(d) ==> d.value_spec() == value,
    {
        match value {
            1 => Ok(Self(1)),
            2 => Ok(Self(2)),
            4 => Ok(Self(4)),
            8 => Ok(Self(8)),
            16 => Ok(Self(16)),
            32 => Ok(Self(32)),
            64 => Ok(Self(64)),
            _ => Err(()),
        }
    }

    pub fn whole() -> (r: Self)
        ensures
            r.value_spec() == 1,
    {
        Self(1)
    }

    /// The half note; `half` is taken by the halving method.
    pub fn minim() -> (r: Self)
        ensures
            r.value_spec() == 2,
    {
        Self(2)
    }

    pub fn quarter() -> (r: Self)
        ensures
            r.value_spec() == 4,
    {
        Self(4)
    }

    pub fn eighth() -> (r: Self)
        ensures
            r.value_spec() == 8,
    {
        Self(8)
    }

    pub fn sixteenth() -> (r: Self)
        ensures
            r.value_spec() == 16,
    {
        Self(16)
    }

    pub fn thirty_second() -> (r: Self)
        ensures
            r.value_spec() == 32,
    {
        Self(32)
    }

    pub fn sixty_fourth() -> (r: Self)
        ensures
            r.value_spec() == 64,
    {
        Self(64)
    }

    pub fn value(&self) -> (r: u64)
        ensures
            r == self.value_spec(),
    {
        self.0
    }

    /// Halves the duration, which doubles the note count.
    pub fn half(&self) -> (r: Self)
        requires
            self.value_spec() * 2 <= u64::MAX,
        ensures
            r.value_spec() == self.value_spec() * 2,
    {
        Self(self.0 * 2)
    }

    /// Doubles the duration, which halves the note count.
    pub fn double(&self) -> (r: Self)
        ensures
            r.value_spec() == self.value_spec() / 2,
    {
        Self(self.0 / 2)
    }

    /// The MIDI tick count of each named primitive duration.
    pub open spec fn midi_spec(self) -> int {
        if self.value_spec() == 1 {
            8192
        } else if self.value_spec() == 2 {
            2048
        } else if self.value_spec() == 4 {
            1024
        } else if self.value_spec() == 8 {
            512
        } else if self.value_spec() == 16 {
            256
        } else if self.value_spec() == 32 {
            128
        } else {
            64
        }
    }

    /// The duration in MIDI ticks; only the seven named counts have one.
    pub fn to_midi(&self) -> (r: u32)
        requires
            Self::valid_value(self.value_spec()),
        ensures
            r as int == self.midi_spec(),
    {
        match self.0 {
            1 => 8192,
            2 => 2048,
            4 => 1024,
            8 => 512,
            16 => 256,
            32 => 128,
            _ => 64,
        }
    }
}

/// A note length: a primitive duration plus dots, each dot adding half of
/// the previous addition.
#[derive(Copy, Clone, Debug, PartialEq, Eq, Structural)]
pub struct Duration {
    pub primitive: PrimitiveDuration,
    pub dots: u8,
}

/// The ticks the dots add to a base of `p` ticks: half of `p`, then half of
/// that, one term per dot, each half rounded down.
pub open spec fn dot_ticks(p: int, dots: nat) -> int
    decreases dots,
{
    if dots == 0 {
        0
    } else {
        p / 2 + dot_ticks(p / 2, (dots - 1) as nat)
    }
}

/// The dots never add more than the base itself.
proof fn lemma_dot_ticks_bound(p: int, dots: nat)
    requires
        p >= 0,
    ensures
        0 <= dot_ticks(p, dots) <= p,
    decreases dots,
{
    if dots == 0 {
    } else {
        lemma_dot_ticks_bound(p / 2, (dots - 1) as nat);
    }
}

impl Duration {
    pub fn from_primitive(primitive: PrimitiveDuration) -> (r: Self)
        ensures
            r.primitive == primitive,
            r.dots == 0,
    {
        Self { primitive, dots: 0 }
    }

    pub fn whole() -> (r: Self)
        ensures
            r.primitive.value_spec() == 1 && r.dots == 0,
    {
        Self { primitive: PrimitiveDuration::whole(), dots: 0 }
    }

    pub fn half() -> (r: Self)
        ensures
            r.primitive.value_spec() == 2 && r.dots == 0,
    {
        Self { primitive: PrimitiveDuration::minim(), dots: 0 }
    }

    pub fn quarter() -> (r: Self)
        ensures
            r.primitive.value_spec() == 4 && r.dots == 0,
    {
        Self { primitive: PrimitiveDuration::quarter(), dots: 0 }
    }

    pub fn eighth() -> (r: Self)
        ensures
            r.primitive.value_spec() == 8 && r.dots == 0,
    {
        Self { primitive: PrimitiveDuration::eighth(), dots: 0 }
    }

    pub fn sixteenth() -> (r: Self)
        ensures
            r.primitive.value_spec() == 16 && r.dots == 0,
    {
        Self { primitive: PrimitiveDuration::sixteenth(), dots: 0 }
    }

    pub fn thirty_second() -> (r: Self)
        ensures
            r.primitive.value_spec() == 32 && r.dots == 0,
    {
        Self { primitive: PrimitiveDuration::thirty_second(), dots: 0 }
    }

    pub fn sixty_fourth() -> (r: Self)
        ensures
            r.primitive.value_spec() == 64 && r.dots == 0,
    {
        Self { primitive: PrimitiveDuration::sixty_fourth(), dots: 0 }
    }

    /// The dotted duration in MIDI ticks: the primitive's ticks plus half,
    /// plus a quarter, and so on, one term per dot.
    pub fn to_midi(&self) -> (r: u32)
        requires
            PrimitiveDuration::valid_value(self.primitive.value_spec()),
        ensures
            r as int == self.primitive.midi_spec() + dot_ticks(
                self.primitive.midi_spec(),
                self.dots as nat,
            ),
    {
        let base = self.primitive.to_midi();
        let mut primitive: u32 = base;
        let mut value: u32 = base;
        let mut d: u8 = 0;
        proof {
            lemma_dot_ticks_bound(base as int, self.dots as nat);
        }
        while d < self.dots
            invariant
                d <= self.dots,
                base as int == self.primitive.midi_spec(),
                base <= 8192,
                dot_ticks(base as int, self.dots as nat) <= base as int,
                value as int + dot_ticks(primitive as int, (self.dots - d) as nat) == base as int
                    + dot_ticks(base as int, self.dots as nat),
            decreases self.dots - d,
        {
            proof {
                lemma_dot_ticks_bound(primitive as int / 2, (self.dots - d - 1) as nat);
                assert(dot_ticks(primitive as int, (self.dots - d) as nat) == primitive as int / 2
                    + dot_ticks(primitive as int / 2, (self.dots - d - 1) as nat));
            }
            value = value + primitive / 2;
            primitive = primitive / 2;
            d = d + 1;
        }
        proof {
            assert(dot_ticks(primitive as int, 0) == 0);
        }
        value
    }
}

} // verus!
