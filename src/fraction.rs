use vstd::prelude::*;

verus! {

/// An exact rational number `num / den` with a positive denominator.
#[derive(Clone, Copy, Debug, PartialEq, Eq, Structural)]
pub struct Fraction {
    pub num: i64,
    pub den: i64,
}

impl Fraction {
    pub open spec fn wf(self) -> bool {
        self.den > 0
    }
}

} // verus!
