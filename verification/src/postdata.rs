//! Value types belonging to a post: its identifier, title and body.

use vstd::prelude::*;

verus! {

/// A post's numeric identifier.
#[derive(Clone, Debug, PartialEq, Eq, Structural)]
pub struct Id(pub u64);

/// A post's title.
#[derive(Clone, Debug, PartialEq, Eq)]
pub struct Title(pub String);

/// A post's body text.
#[derive(Clone, Debug, PartialEq, Eq)]
pub struct Body(pub String);

} // verus!
