//! Event-sourcing aggregate core: a versioned state container rebuilt by
//! replaying domain events, with optimistic concurrency detection.
//!
//! An aggregate's `Version` counts how many events have been folded into its
//! state. `Version::Initial` means no events were ever applied; `Number(n)`
//! means the last applied event was the `n`-th. The version and the state are
//! only ever advanced together by the `apply` family of operations.
//!
//! Overflow policy: `apply` commits the event to the state first and then
//! advances the version, exactly in that order. If the version increment
//! overflows, the state mutation from that same event is kept; the caller
//! sees `VersionOverflow` and must treat the aggregate as unusable. The
//! contracts state this outcome (the state clause of `apply` holds on both
//! branches) rather than papering over it with a pre-check.

use vstd::prelude::*;

verus! {

/// Recoverable failure kinds shared by all aggregate operations.
#[derive(Debug, Clone, PartialEq, Eq, Structural)]
pub enum AggregateError {
    /// The 64-bit sequence space is exhausted for this aggregate instance.
    VersionOverflow,
    /// An optimistic-concurrency check failed; the aggregate was modified
    /// since the caller last observed it.
    VersionMismatch { expected: Version, actual: Version },
    /// A version check does not form a legal "next integer" step.
    InvalidSequence,
}

/// A projected state built from a series of events.
pub trait Aggregate: Default {
    /// A static label for the type of the aggregate.
    fn aggregate_type() -> &'static str;

    /// Consumes the event, applying its effects to the aggregate.
    fn apply<E>(&mut self, event: E) where
        E: AggregateEvent<Self>,

        ensures
            *final(self) == event.spec_apply_to(*old(self)),
    {
        event.apply_to(self);
    }
}

/// An identifier for an aggregate.
pub trait AggregateId {
    /// Gets the stringified aggregate identifier.
    fn as_str(&self) -> &str;
}

/// A thing that happened: an immutable fact about the system.
pub trait Event {
    /// A static label describing the event.
    fn event_type(&self) -> &'static str;
}

/// An event that can be applied to a specific aggregate projection type.
/// Each event declares its effect as a function of the old state, and
/// `apply_to` must commit exactly that effect.
pub trait AggregateEvent<A>: Event {
    /// The state after this event, as a function of the state before it.
    spec fn spec_apply_to(self, aggregate: A) -> A;

    /// Consumes the event, committing its effect to the aggregate.
    fn apply_to(self, aggregate: &mut A)
        ensures
            *final(aggregate) == self.spec_apply_to(*old(aggregate)),
    ;
}

/// An event sequence number; the first event ever applied is number 1.
#[derive(Debug, Clone, Copy, PartialEq, Eq, Hash, PartialOrd, Ord, Structural)]
pub struct EventNumber {
    value: u64,
}

impl EventNumber {
    #[verifier::type_invariant]
    spec fn type_inv(self) -> bool {
        self.value >= 1
    }

    /// The number as a mathematical value.
    pub closed spec fn spec_get(self) -> u64 {
        self.value
    }

    /// The minimum event number: the number of the first event.
    pub fn min_value() -> (r: EventNumber)
        ensures
            r.spec_get() == 1,
    {
        EventNumber { value: 1 }
    }

    /// Advances to the next event number, or reports `VersionOverflow` when
    /// the 64-bit space is exhausted. On failure the number is unchanged.
    pub fn incr(&mut self) -> (r: Result<(), AggregateError>)
        ensures
            match r {
                Ok(()) => old(self).spec_get() < u64::MAX && final(self).spec_get() == old(self).spec_get() + 1,
                Err(e) => {
                    &&& e == AggregateError::VersionOverflow
                    &&& old(self).spec_get() == u64::MAX
                    &&& *final(self) == *old(self)
                },
            },
    {
        match self.value.checked_add(1) {
            Some(next) => {
                self.value = next;
                Ok(())
            },
            None => Err(AggregateError::VersionOverflow),
        }
    }

    /// The raw integer value; always at least 1.
    pub fn get(&self) -> (r: u64)
        ensures
            r == self.spec_get(),
            r >= 1,
    {
        proof {
            use_type_invariant(self);
        }
        self.value
    }
}

/// An aggregate version: either no events applied yet, or the number of the
/// last applied event.
#[derive(Debug, Clone, Copy, PartialEq, Eq, Hash, PartialOrd, Ord, Structural)]
pub enum Version {
    /// The version of an aggregate that has not had any events applied.
    Initial,
    /// The number of the last event applied to the aggregate.
    Number(EventNumber),
}

impl Default for Version {
    fn default() -> (r: Self)
        ensures
            r == Version::Initial,
    {
        Version::Initial
    }
}

/// Holds exactly when `cur` is the one legal successor of `prev`: the next
/// event number, with `Initial` counting as zero.
pub open spec fn sequence_ok(cur: Version, prev: Version) -> bool {
    cur.spec_num() == prev.spec_num() + 1
}

impl Version {
    /// How many events this version accounts for: 0 for `Initial`, else the
    /// last event number.
    pub open spec fn spec_num(self) -> nat {
        match self {
            Version::Initial => 0,
            Version::Number(n) => n.spec_get() as nat,
        }
    }

    /// Well-formedness: a numbered version carries a positive event
    /// number. Every version this module hands out satisfies it.
    pub open spec fn wf(self) -> bool {
        self matches Version::Number(n) ==> n.spec_get() >= 1
    }

    /// Creates a `Version` from a raw number; 0 is the sentinel for
    /// `Initial`, so 0 is never a legal event number.
    pub fn new(number: u64) -> (v: Self)
        ensures
            v.spec_num() == number,
            number == 0 <==> v is Initial,
            v.wf(),
    {
        if number == 0 {
            Version::Initial
        } else {
            Version::Number(EventNumber { value: number })
        }
    }

    /// Advances the version by one event: `Initial` becomes `Number(1)`, and
    /// `Number(n)` becomes `Number(n + 1)` or fails with `VersionOverflow`.
    /// On failure the version is unchanged.
    pub fn incr(&mut self) -> (r: Result<(), AggregateError>)
        ensures
            match r {
                Ok(()) => old(self).spec_num() < u64::MAX && final(self).spec_num() == old(self).spec_num() + 1 && final(self).wf(),
                Err(e) => {
                    &&& e == AggregateError::VersionOverflow
                    &&& old(self).spec_num() == u64::MAX
                    &&& *final(self) == *old(self)
                },
            },
    {
        match self {
            Version::Initial => {
                *self = Version::Number(EventNumber::min_value());
                Ok(())
            },
            Version::Number(en) => en.incr(),
        }
    }

    /// Succeeds exactly when `self` is the legal next version after
    /// `previous`: `Number(1)` after `Initial`, or `Number(p + 1)` after
    /// `Number(p)`. Any gap, repeat or regression fails with
    /// `InvalidSequence`.
    pub fn validate_sequence(&self, previous: Version) -> (r: Result<(), AggregateError>)
        ensures
            match r {
                Ok(()) => sequence_ok(*self, previous),
                Err(e) => e == AggregateError::InvalidSequence && !sequence_ok(*self, previous),
            },
    {
        match (previous, *self) {
            (Version::Initial, Version::Number(n)) => {
                if n.get() == 1 {
                    Ok(())
                } else {
                    Err(AggregateError::InvalidSequence)
                }
            },
            (Version::Number(prev), Version::Number(curr)) => {
                let p = prev.get();
                if p < u64::MAX && curr.get() == p + 1 {
                    Ok(())
                } else {
                    Err(AggregateError::InvalidSequence)
                }
            },
            _ => Err(AggregateError::InvalidSequence),
        }
    }
}

/// From the initial version, the only legal successor is `Number(1)`.
pub proof fn lemma_initial_successor(v: Version)
    ensures
        sequence_ok(v, Version::Initial) <==> v.spec_num() == 1,
{
}

/// Each version admits exactly one legal successor: the next event number.
/// In particular `Number(k)` itself and `Number(k + 2)` are never legal
/// successors of `Number(k)`.
pub proof fn lemma_successor_is_unique(prev: Version, a: Version, b: Version)
    requires
        sequence_ok(a, prev),
        sequence_ok(b, prev),
    ensures
        a.spec_num() == b.spec_num(),
{
}

/// The event count determines the version: two well-formed versions that
/// account for the same number of events are equal. In particular a
/// version that accounts for `k` events equals `Version::new(k)`.
pub proof fn lemma_count_determines_version(a: Version, b: Version)
    requires
        a.wf(),
        b.wf(),
        a.spec_num() == b.spec_num(),
    ensures
        a == b,
{
}

/// An aggregate loaded into memory: a projection (`state`) coupled with the
/// version it reflects and, optionally, the version at which a snapshot of
/// it was last taken.
#[derive(Debug, Clone, PartialEq, Eq, Hash)]
pub struct HydratedAggregate<A> {
    version: Version,
    snapshot_version: Option<Version>,
    state: A,
}

impl<A> HydratedAggregate<A> {
    /// The version recorded for the current state.
    pub closed spec fn spec_version(self) -> Version {
        self.version
    }

    /// The version at which a snapshot was last recorded, if any.
    pub closed spec fn spec_snapshot_version(self) -> Option<Version> {
        self.snapshot_version
    }

    /// The current projected state.
    pub closed spec fn spec_state(self) -> A {
        self.state
    }

    /// Well-formedness: the recorded version is well-formed. The
    /// constructors establish it and the apply family preserves it, so a
    /// caller can relate `version()` to `Version::new(k)` through
    /// `lemma_count_determines_version`.
    pub open spec fn wf(self) -> bool {
        self.spec_version().wf()
    }

    /// Creates a new hydrated aggregate from a state, with no events applied
    /// and no snapshot recorded.
    pub fn new(state: A) -> (r: Self)
        ensures
            r.spec_version() == Version::Initial,
            r.spec_snapshot_version() is None,
            r.spec_state() == state,
            r.wf(),
    {
        HydratedAggregate { version: Version::Initial, snapshot_version: None, state }
    }

    /// The current version of the aggregate.
    pub fn version(&self) -> (v: Version)
        ensures
            v == self.spec_version(),
    {
        self.version
    }

    /// The version of the snapshot from which the aggregate was loaded.
    pub fn snapshot_version(&self) -> (v: Option<Version>)
        ensures
            v == self.spec_snapshot_version(),
    {
        self.snapshot_version
    }

    /// Records that a snapshot was taken at version `new_snapshot_version`;
    /// the aggregate's own version and state are untouched.
    pub fn set_snapshot_version(&mut self, new_snapshot_version: Version)
        ensures
            final(self).spec_snapshot_version() == Some(new_snapshot_version),
            final(self).spec_version() == old(self).spec_version(),
            final(self).spec_state() == old(self).spec_state(),
    {
        self.snapshot_version = Some(new_snapshot_version);
    }

    /// The actual aggregate state.
    pub fn state(&self) -> (r: &A)
        ensures
            *r == self.spec_state(),
    {
        &self.state
    }

    /// Mutable access to the state. This bypasses event sourcing: the
    /// version no longer reflects the events folded into the state if the
    /// caller mutates through it. Reserved for snapshot hydration.
    pub fn state_mut(&mut self) -> (r: &mut A)
        ensures
            *r == old(self).spec_state(),
            final(self).spec_state() == *final(r),
            final(self).spec_version() == old(self).spec_version(),
            final(self).spec_snapshot_version() == old(self).spec_snapshot_version(),
    {
        &mut self.state
    }
}

impl<A: Default> Default for HydratedAggregate<A> {
    /// A fresh aggregate over `A::default()`: no events applied, no
    /// snapshot recorded, and a state for which `A::default`'s own
    /// contract holds.
    fn default() -> (r: Self)
        ensures
            r.spec_version() == Version::Initial,
            r.spec_snapshot_version() is None,
            call_ensures(A::default, (), r.spec_state()),
            r.wf(),
    {
        HydratedAggregate {
            version: Version::Initial,
            snapshot_version: None,
            state: A::default(),
        }
    }
}

/// The state reached by committing the events to `state` in order.
pub open spec fn spec_fold_events<A, E: AggregateEvent<A>>(state: A, events: Seq<E>) -> A
    decreases events.len(),
{
    if events.len() == 0 {
        state
    } else {
        spec_fold_events(events[0].spec_apply_to(state), events.drop_first())
    }
}

proof fn lemma_fold_events_snoc<A, E: AggregateEvent<A>>(state: A, events: Seq<E>, e: E)
    ensures
        spec_fold_events(state, events.push(e)) == e.spec_apply_to(
            spec_fold_events(state, events),
        ),
    decreases events.len(),
{
    let p = events.push(e);
    if events.len() == 0 {
        assert(p[0] == e);
        assert(p.drop_first() =~= Seq::<E>::empty());
        assert(spec_fold_events(state, p) == spec_fold_events(
            e.spec_apply_to(state),
            p.drop_first(),
        ));
        assert(spec_fold_events(e.spec_apply_to(state), p.drop_first()) == e.spec_apply_to(state));
        assert(spec_fold_events(state, events) == state);
    } else {
        assert(p[0] == events[0]);
        assert(p.drop_first() =~= events.drop_first().push(e));
        assert(spec_fold_events(state, p) == spec_fold_events(
            events[0].spec_apply_to(state),
            p.drop_first(),
        ));
        lemma_fold_events_snoc(events[0].spec_apply_to(state), events.drop_first(), e);
        assert(spec_fold_events(state, events) == spec_fold_events(
            events[0].spec_apply_to(state),
            events.drop_first(),
        ));
    }
}

impl<A: Aggregate> HydratedAggregate<A> {
    /// Commits a single event to the state, then advances the version by
    /// one. On `VersionOverflow` the version is unchanged but the state has
    /// already absorbed the event (see the module's overflow policy), as
    /// the unconditional state clause records.
    pub fn apply<E>(&mut self, event: E) -> (r: Result<(), AggregateError>) where
        E: AggregateEvent<A>,

        ensures
            final(self).spec_state() == event.spec_apply_to(old(self).spec_state()),
            final(self).spec_snapshot_version() == old(self).spec_snapshot_version(),
            old(self).wf() ==> final(self).wf(),
            match r {
                Ok(()) => old(self).spec_version().spec_num() < u64::MAX && final(self).spec_version().spec_num() == old(self).spec_version().spec_num() + 1,
                Err(e) => {
                    &&& e == AggregateError::VersionOverflow
                    &&& old(self).spec_version().spec_num() == u64::MAX
                    &&& final(self).spec_version() == old(self).spec_version()
                },
            },
    {
        self.state.apply(event);
        match self.version.incr() {
            Ok(()) => Ok(()),
            Err(e) => Err(e),
        }
    }

    /// Applies each event in order, short-circuiting on the first failure.
    /// On success the state is the in-order fold of the events' effects and
    /// the version has advanced by exactly the number of events supplied.
    /// The only possible failure is `VersionOverflow`, reached exactly when
    /// the events would push the version past the 64-bit maximum; the
    /// events before and including the failing one are then committed to
    /// the state and the later ones never are.
    pub fn apply_events<E>(&mut self, events: Vec<E>) -> (r: Result<(), AggregateError>) where
        E: AggregateEvent<A>,

        ensures
            final(self).spec_snapshot_version() == old(self).spec_snapshot_version(),
            events@.len() == 0 ==> *final(self) == *old(self),
            old(self).wf() ==> final(self).wf(),
            match r {
                Ok(()) => {
                    &&& old(self).spec_version().spec_num() + events@.len() <= u64::MAX
                    &&& final(self).spec_version().spec_num() == old(self).spec_version().spec_num() + events@.len()
                    &&& final(self).spec_state() == spec_fold_events(
                        old(self).spec_state(),
                        events@,
                    )
                },
                Err(e) => {
                    &&& e == AggregateError::VersionOverflow
                    &&& old(self).spec_version().spec_num() + events@.len() > u64::MAX
                    &&& final(self).spec_version().spec_num() == u64::MAX
                    &&& final(self).spec_state() == spec_fold_events(
                        old(self).spec_state(),
                        events@.take(u64::MAX - old(self).spec_version().spec_num() + 1),
                    )
                },
            },
    {
        let ghost start: nat = self.spec_version().spec_num();
        let n = events.len();
        if n == 0 {
            proof {
                assert(events@.take(0int) =~= events@);
            }
            return Ok(());
        }
        let mut remaining = events;
        let mut applied: usize = 0;
        while applied < n
            invariant
                applied <= n,
                n == events@.len(),
                n == applied + remaining@.len(),
                remaining@ == events@.skip(applied as int),
                self.spec_version().spec_num() == start + applied,
                self.spec_version().spec_num() <= u64::MAX,
                self.spec_snapshot_version() == old(self).spec_snapshot_version(),
                start == old(self).spec_version().spec_num(),
                self.spec_state() == spec_fold_events(
                    old(self).spec_state(),
                    events@.take(applied as int),
                ),
            decreases n - applied,
        {
            let event = remaining.remove(0);
            proof {
                assert(remaining@ =~= events@.skip(applied + 1));
                assert(event == events@[applied as int]);
                assert(events@.take(applied + 1) =~= events@.take(applied as int).push(event));
                lemma_fold_events_snoc(
                    old(self).spec_state(),
                    events@.take(applied as int),
                    event,
                );
            }
            match self.apply(event) {
                Ok(()) => {},
                Err(e) => {
                    return Err(e);
                },
            }
            applied = applied + 1;
        }
        proof {
            assert(events@.take(n as int) =~= events@);
        }
        Ok(())
    }

    /// The optimistic-concurrency primitive: applies `event` only if the
    /// aggregate is still at `expected_version`. On a version mismatch it
    /// fails before mutating anything, reporting both the expected and the
    /// actual version so the caller can reload and retry.
    pub fn apply_with_concurrency_check<E>(
        &mut self,
        event: E,
        expected_version: Version,
    ) -> (r: Result<(), AggregateError>) where E: AggregateEvent<A>
        ensures
            final(self).spec_snapshot_version() == old(self).spec_snapshot_version(),
            old(self).wf() ==> final(self).wf(),
            old(self).spec_version() != expected_version ==> {
                &&& *final(self) == *old(self)
                &&& r == Err::<(), AggregateError>(
                    AggregateError::VersionMismatch {
                        expected: expected_version,
                        actual: old(self).spec_version(),
                    },
                )
            },
            old(self).spec_version() == expected_version ==> final(self).spec_state()
                == event.spec_apply_to(old(self).spec_state()),
            old(self).spec_version() == expected_version ==> match r {
                Ok(()) => old(self).spec_version().spec_num() < u64::MAX && final(self).spec_version().spec_num() == old(self).spec_version().spec_num() + 1,
                Err(e) => {
                    &&& e == AggregateError::VersionOverflow
                    &&& old(self).spec_version().spec_num() == u64::MAX
                    &&& final(self).spec_version() == old(self).spec_version()
                },
            },
    {
        if self.version != expected_version {
            return Err(
                AggregateError::VersionMismatch {
                    expected: expected_version,
                    actual: self.version,
                },
            );
        }
        self.apply(event)
    }
}

/// An identified, specific instance of a hydrated aggregate. It adds no
/// invariants of its own: every operation delegates to the aggregate.
#[derive(Debug, Clone, PartialEq, Eq, Hash)]
pub struct Entity<I, A> {
    id: I,
    aggregate: HydratedAggregate<A>,
}

impl<I, A> Entity<I, A> {
    /// The identifier.
    pub closed spec fn spec_id(self) -> I {
        self.id
    }

    /// The underlying hydrated aggregate.
    pub closed spec fn spec_aggregate(self) -> HydratedAggregate<A> {
        self.aggregate
    }

    /// Creates a new entity from an identifier and an associated hydrated
    /// aggregate.
    pub fn new(id: I, aggregate: HydratedAggregate<A>) -> (r: Self)
        ensures
            r.spec_id() == id,
            r.spec_aggregate() == aggregate,
    {
        Entity { id, aggregate }
    }

    /// The entity's identifier.
    pub fn id(&self) -> (r: &I)
        ensures
            *r == self.spec_id(),
    {
        &self.id
    }

    /// An immutable reference to the underlying aggregate.
    pub fn aggregate(&self) -> (r: &HydratedAggregate<A>)
        ensures
            *r == self.spec_aggregate(),
    {
        &self.aggregate
    }

    /// A mutable reference to the underlying aggregate.
    pub fn aggregate_mut(&mut self) -> (r: &mut HydratedAggregate<A>)
        ensures
            *r == old(self).spec_aggregate(),
            final(self).spec_aggregate() == *final(r),
            final(self).spec_id() == old(self).spec_id(),
    {
        &mut self.aggregate
    }
}

impl<I: Default, A: Default> Default for Entity<I, A> {
    fn default() -> (r: Self)
        ensures
            r.spec_aggregate().spec_version() == Version::Initial,
            r.spec_aggregate().spec_snapshot_version() is None,
            call_ensures(I::default, (), r.spec_id()),
            call_ensures(A::default, (), r.spec_aggregate().spec_state()),
            r.spec_aggregate().wf(),
    {
        Entity { id: I::default(), aggregate: HydratedAggregate::<A>::default() }
    }
}

impl<I, A: Aggregate> Entity<I, A> {
    /// Applies an event to the entity's aggregate; pure delegation.
    pub fn apply_event<E>(&mut self, event: E) -> (r: Result<(), AggregateError>) where
        E: AggregateEvent<A>,

        ensures
            final(self).spec_id() == old(self).spec_id(),
            old(self).spec_aggregate().wf() ==> final(self).spec_aggregate().wf(),
            final(self).spec_aggregate().spec_state() == event.spec_apply_to(
                old(self).spec_aggregate().spec_state(),
            ),
            final(self).spec_aggregate().spec_snapshot_version() == old(self).spec_aggregate().spec_snapshot_version(),
            match r {
                Ok(()) => old(self).spec_aggregate().spec_version().spec_num() < u64::MAX && final(self).spec_aggregate().spec_version().spec_num() == old(self).spec_aggregate().spec_version().spec_num() + 1,
                Err(e) => {
                    &&& e == AggregateError::VersionOverflow
                    &&& old(self).spec_aggregate().spec_version().spec_num() == u64::MAX
                    &&& final(self).spec_aggregate().spec_version() == old(self).spec_aggregate().spec_version()
                },
            },
    {
        self.aggregate.apply(event)
    }
}

impl<I, A> From<Entity<I, A>> for HydratedAggregate<A> {
    fn from(entity: Entity<I, A>) -> (r: Self) {
        entity.aggregate
    }
}

impl<I, A> vstd::std_specs::convert::FromSpecImpl<Entity<I, A>> for HydratedAggregate<A> {
    open spec fn obeys_from_spec() -> bool {
        true
    }

    open spec fn from_spec(entity: Entity<I, A>) -> Self {
        entity.spec_aggregate()
    }
}

/// A minimal projection verified against the aggregate contracts: a
/// saturating event counter. It shows the trait's promise checked against
/// real event implementations, not only assumed of outside ones.
#[derive(Debug, Clone, Copy, PartialEq, Eq, Structural)]
pub struct Counter {
    pub count: u64,
}

impl Default for Counter {
    fn default() -> (r: Self)
        ensures
            r.count == 0,
    {
        Counter { count: 0 }
    }
}

impl Aggregate for Counter {
    fn aggregate_type() -> &'static str {
        "Counter"
    }
}

/// Sets the counter to a fixed value.
pub struct CounterSet(pub u64);

impl Event for CounterSet {
    fn event_type(&self) -> &'static str {
        "CounterSet"
    }
}

impl AggregateEvent<Counter> for CounterSet {
    open spec fn spec_apply_to(self, aggregate: Counter) -> Counter {
        Counter { count: self.0 }
    }

    fn apply_to(self, aggregate: &mut Counter) {
        aggregate.count = self.0;
    }
}

/// Raises the counter by one, saturating at the maximum.
pub struct CounterIncremented;

impl Event for CounterIncremented {
    fn event_type(&self) -> &'static str {
        "CounterIncremented"
    }
}

impl AggregateEvent<Counter> for CounterIncremented {
    open spec fn spec_apply_to(self, aggregate: Counter) -> Counter {
        if aggregate.count < u64::MAX {
            Counter { count: (aggregate.count + 1) as u64 }
        } else {
            aggregate
        }
    }

    fn apply_to(self, aggregate: &mut Counter) {
        if aggregate.count < u64::MAX {
            aggregate.count = aggregate.count + 1;
        }
    }
}

} // verus!
