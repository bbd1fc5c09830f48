//! The clone-friendly variant: the same observable behaviour as the
//! swap-based one, for element types that also implement `Clone`.

use vstd::prelude::*;
use vstd::std_specs::cmp::PartialEqSpec;

verus! {

/// A triple of values.
#[derive(Clone, Debug, PartialEq)]
pub struct Trinity<T> {
    pub a: T,
    pub b: T,
    pub c: T,
}

/// One rotation step: `(a, b, c)` becomes `(b, c, a)`.
pub open spec fn spec_rotated<T>(t: Trinity<T>) -> Trinity<T> {
    Trinity { a: t.b, b: t.c, c: t.a }
}

/// Component-wise equality of two triples, under `T`'s own equality.
pub open spec fn spec_matches<T: PartialEq>(t: Trinity<T>, e: Trinity<T>) -> bool {
    t.a.eq_spec(&e.a) && t.b.eq_spec(&e.b) && t.c.eq_spec(&e.c)
}

/// Whether some rotation of `t` (including none) matches `e`.
pub open spec fn spec_solvable<T: PartialEq>(t: Trinity<T>, e: Trinity<T>) -> bool {
    ||| spec_matches(t, e)
    ||| spec_matches(spec_rotated(t), e)
    ||| spec_matches(spec_rotated(spec_rotated(t)), e)
}

impl<T: Clone> Trinity<T> {
    /// Rotates the three values in place: `(a, b, c)` becomes `(b, c, a)`.
    pub fn rotate(&mut self)
        ensures
            *final(self) == spec_rotated(*old(self)),
    {
        core::mem::swap(&mut self.a, &mut self.b);
        core::mem::swap(&mut self.b, &mut self.c);
    }
}

/// Component-wise equality check; exact whenever `T`'s equality obeys its
/// specification.
fn trinity_eq<T: PartialEq>(x: &Trinity<T>, y: &Trinity<T>) -> (r: bool)
    ensures
        T::obeys_eq_spec() ==> r == spec_matches(*x, *y),
{
    x.a == y.a && x.b == y.b && x.c == y.c
}

/// Discards from `unsolved` every triple that can be rotated into
/// `expected`.
#[derive(Debug)]
pub struct Solver<T> {
    pub expected: Trinity<T>,
    pub unsolved: Vec<Trinity<T>>,
}

impl<T: Clone + PartialEq> Solver<T> {
    pub fn new(expected: Trinity<T>, unsolved: Vec<Trinity<T>>) -> (r: Self)
        ensures
            r.expected == expected,
            r.unsolved == unsolved,
    {
        Self { expected, unsolved }
    }

    /// Keeps exactly the triples that no rotation turns into the expected
    /// one; kept triples come back in their original orientation and order.
    pub fn resolve(&mut self)
        ensures
            final(self).expected == old(self).expected,
            T::obeys_eq_spec() ==> final(self).unsolved@ == old(self).unsolved@.filter(
                |t: Trinity<T>| !spec_solvable(t, old(self).expected),
            ),
    {
        let ghost orig: Seq<Trinity<T>> = self.unsolved@;
        let ghost e: Trinity<T> = self.expected;
        let ghost pred = |t: Trinity<T>| !spec_solvable(t, e);
        let mut kept: Vec<Trinity<T>> = Vec::new();
        let n = self.unsolved.len();
        let mut i: usize = 0;
        while i < n
            invariant
                i <= n,
                n == orig.len(),
                self.expected == e,
                self.unsolved@ == orig.skip(i as int),
                pred == (|t: Trinity<T>| !spec_solvable(t, e)),
                T::obeys_eq_spec() ==> kept@ == orig.take(i as int).filter(pred),
            decreases n - i,
        {
            let mut t = self.unsolved.remove(0);
            proof {
                assert(self.unsolved@ =~= orig.skip(i + 1));
                assert(t == orig[i as int]);
            }
            let m0 = trinity_eq(&t, &self.expected);
            let mut keep = false;
            if !m0 {
                t.rotate();
                let m1 = trinity_eq(&t, &self.expected);
                if !m1 {
                    t.rotate();
                    let m2 = trinity_eq(&t, &self.expected);
                    if !m2 {
                        t.rotate();
                        proof {
                            assert(t == orig[i as int]);
                        }
                        keep = true;
                    }
                }
            }
            proof {
                reveal(Seq::filter);
                assert(orig.take(i + 1).drop_last() =~= orig.take(i as int));
                assert(orig.take(i + 1).last() == orig[i as int]);
            }
            if keep {
                kept.push(t);
            }
            i = i + 1;
        }
        proof {
            assert(orig.take(n as int) =~= orig);
        }
        self.unsolved = kept;
    }
}

} // verus!
