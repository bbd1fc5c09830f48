//! The domain model of a streaming request: tariffs, gifts, prices and
//! stream visibility, as plain validated values. Serialization of these
//! types to JSON, YAML or TOML lives outside the verified core; the
//! visibility flag's wire encoding (a boolean) is mapped here.

use vstd::prelude::*;

verus! {

/// The kind of a response envelope.
#[derive(Debug, Clone, Copy, PartialEq, Eq, Structural)]
pub enum ResponseKind {
    Success,
}

/// A stream's settings word.
#[derive(Debug, Clone, Copy, PartialEq, Eq, Structural)]
pub struct StreamSettings(pub u64);

/// Whether a stream is visible to everyone or only to its owner.
#[derive(Debug, Clone, Copy, PartialEq, Eq, Structural)]
pub enum StreamVisibility {
    Public,
    Private,
}

/// On the wire, visibility travels as an `is_private` boolean; this is the
/// decoding direction.
pub fn visibility_from_bool(is_private: bool) -> (r: StreamVisibility)
    ensures
        r == (if is_private {
            StreamVisibility::Private
        } else {
            StreamVisibility::Public
        }),
{
    if is_private {
        StreamVisibility::Private
    } else {
        StreamVisibility::Public
    }
}

/// The encoding direction of the `is_private` boolean.
pub fn visibility_to_bool(visibility: &StreamVisibility) -> (r: bool)
    ensures
        r == (*visibility is Private),
{
    match visibility {
        StreamVisibility::Public => false,
        StreamVisibility::Private => true,
    }
}

/// Decoding and encoding the visibility flag are inverse to each other.
pub proof fn lemma_visibility_round_trip(is_private: bool, visibility: StreamVisibility)
    ensures
        (if is_private {
            StreamVisibility::Private
        } else {
            StreamVisibility::Public
        }) is Private == is_private,
        (if visibility is Private {
            StreamVisibility::Private
        } else {
            StreamVisibility::Public
        }) == visibility,
{
}

/// A span of time: seconds and a sub-second remainder in nanoseconds.
#[derive(Debug, Clone, Copy, PartialEq, Eq, Structural)]
pub struct Duration {
    secs: u64,
    nanos: u32,
}

impl Duration {
    #[verifier::type_invariant]
    spec fn type_inv(self) -> bool {
        self.nanos < 1_000_000_000
    }

    pub closed spec fn spec_secs(self) -> u64 {
        self.secs
    }

    pub closed spec fn spec_nanos(self) -> u32 {
        self.nanos
    }

    /// A whole number of seconds.
    pub fn from_secs(secs: u64) -> (r: Self)
        ensures
            r.spec_secs() == secs,
            r.spec_nanos() == 0,
    {
        Duration { secs, nanos: 0 }
    }

    /// A whole number of milliseconds.
    pub fn from_millis(millis: u64) -> (r: Self)
        ensures
            r.spec_secs() == millis / 1000,
            r.spec_nanos() == (millis % 1000) * 1_000_000,
    {
        Duration { secs: millis / 1000, nanos: (millis % 1000) as u32 * 1_000_000 }
    }

    pub fn secs(&self) -> (r: u64)
        ensures
            r == self.spec_secs(),
    {
        self.secs
    }

    /// The sub-second remainder; always below one second.
    pub fn nanos(&self) -> (r: u32)
        ensures
            r == self.spec_nanos(),
            r < 1_000_000_000,
    {
        proof {
            use_type_invariant(self);
        }
        self.nanos
    }
}

/// The identifier of a public tariff.
#[derive(Debug, Clone, Copy, PartialEq, Eq, Structural)]
pub struct PublicTariffId(pub u64);

/// The identifier of a gift.
#[derive(Debug, Clone, Copy, PartialEq, Eq, Structural)]
pub struct GiftId(pub u64);

/// A price in minor currency units.
#[derive(Debug, Clone, Copy, PartialEq, Eq, Structural)]
pub struct Price(pub u64);

/// The tariff offered to everyone.
#[derive(Debug, Clone, PartialEq, Eq)]
pub struct PublicTariff {
    pub id: PublicTariffId,
    pub price: Price,
    pub duration: Duration,
    pub description: String,
}

/// The tariff offered to the stream's own clients.
#[derive(Debug, Clone, PartialEq, Eq)]
pub struct PrivateTariff {
    pub client_price: Price,
    pub duration: Duration,
    pub description: String,
}

/// A gift attached to a request.
#[derive(Debug, Clone, PartialEq, Eq)]
pub struct Gift {
    pub id: GiftId,
    pub price: Price,
    pub description: String,
}

} // verus!
