use vstd::prelude::*;

use crate::duration::Duration;

verus! {

/// A rest: silence lasting a given duration.
#[derive(Copy, Clone, Debug, PartialEq, Eq, Structural)]
pub struct Rest(pub Duration);

impl Rest {
    pub fn new(duration: Duration) -> (r: Self)
        ensures
            r.0 == duration,
    {
        Self(duration)
    }

    pub fn duration(&self) -> (r: Duration)
        ensures
            r == self.0,
    {
        self.0
    }
}

} // verus!
