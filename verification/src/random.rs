//! A pointer-like holder of three values that hands out one of them at
//! random. The randomness comes from the `rand` crate behind a trusted
//! wrapper; everything proved here holds whichever of the three comes out.

use vstd::prelude::*;

verus! {

/// Relies on `rand::random_range`: a value drawn from `0..3` lies below 3.
/// Nothing more is assumed of it — the draw is random.
#[verifier::external_body]
pub(crate) fn pick_index_of_three() -> (r: usize)
    ensures
        r < 3,
{
    rand::random_range(0..3usize)
}

/// Three values of which a random one is handed out on each access.
pub struct Random<T>([T; 3]);

impl<T> Random<T> {
    /// The three values, in construction order.
    pub closed spec fn spec_values(self) -> Seq<T> {
        self.0@
    }

    /// Wraps three values.
    pub fn new(v1: T, v2: T, v3: T) -> (r: Self)
        ensures
            r.spec_values() == seq![v1, v2, v3],
    {
        let r = Self([v1, v2, v3]);
        proof {
            assert(r.spec_values() =~= seq![v1, v2, v3]);
        }
        r
    }

    /// A randomly chosen one of the three values.
    pub fn value(&self) -> (r: &T)
        ensures
            exists|i: int| 0 <= i < 3 && *r == self.spec_values()[i],
    {
        let index = pick_index_of_three();
        let r = &self.0[index];
        proof {
            assert(*r == self.spec_values()[index as int]);
        }
        r
    }
}

} // verus!
