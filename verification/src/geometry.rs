//! Plain geometric value types: a copyable point and a cloneable polyline
//! that is guaranteed never to be empty.

use vstd::prelude::*;

verus! {

/// A point on the integer plane.
#[derive(Copy, Clone, Default, Debug, PartialEq, Eq, Structural)]
pub struct Point {
    pub x: i32,
    pub y: i32,
}

/// A polyline: a non-empty sequence of points.
#[derive(Clone, Debug)]
pub struct Polyline {
    pub points: Vec<Point>,
}

impl Polyline {
    /// Wraps the given points, refusing an empty sequence.
    pub fn new(points: Vec<Point>) -> (r: Option<Polyline>)
        ensures
            match r {
                Some(p) => points@.len() > 0 && p.points@ == points@,
                None => points@.len() == 0,
            },
    {
        if points.is_empty() {
            None
        } else {
            Some(Polyline { points })
        }
    }

    /// Copies the given points into a new polyline, refusing an empty slice.
    pub fn from_points(points: &[Point]) -> (r: Option<Polyline>)
        ensures
            match r {
                Some(p) => points@.len() > 0 && p.points@ == points@,
                None => points@.len() == 0,
            },
    {
        if points.len() == 0 {
            None
        } else {
            let mut copied: Vec<Point> = Vec::new();
            let n = points.len();
            let mut i: usize = 0;
            while i < n
                invariant
                    i <= n,
                    n == points@.len(),
                    copied@ == points@.take(i as int),
                decreases n - i,
            {
                copied.push(*vstd::slice::slice_index_get(points, i));
                proof {
                    assert(copied@ =~= points@.take(i + 1));
                }
                i = i + 1;
            }
            proof {
                assert(copied@ =~= points@);
            }
            Some(Polyline { points: copied })
        }
    }
}

} // verus!
