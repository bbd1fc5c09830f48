//! Identifier type for users, kept apart from post identifiers so the two
//! can never be mixed up.

use vstd::prelude::*;

verus! {

/// A user's numeric identifier.
#[derive(Clone, Debug, PartialEq, Eq, Structural)]
pub struct Id(pub u64);

} // verus!
