use incubator::aggregate::{
    Aggregate, AggregateError, AggregateEvent, Counter, CounterIncremented, CounterSet, Entity,
    Event, EventNumber, HydratedAggregate, Version,
};

#[derive(Default, Debug, PartialEq, Clone)]
struct TestAggregate {
    counter: u32,
}

impl Aggregate for TestAggregate {
    fn aggregate_type() -> &'static str {
        "Test"
    }
}

struct Increment;

impl Event for Increment {
    fn event_type(&self) -> &'static str {
        "Increment"
    }
}

impl AggregateEvent<TestAggregate> for Increment {
    fn spec_apply_to(self, aggregate: TestAggregate) -> TestAggregate {
        TestAggregate {
            counter: aggregate.counter + 1,
        }
    }

    fn apply_to(self, aggregate: &mut TestAggregate) {
        aggregate.counter += 1;
    }
}

struct SetCounter(u32);

impl Event for SetCounter {
    fn event_type(&self) -> &'static str {
        "SetCounter"
    }
}

impl AggregateEvent<TestAggregate> for SetCounter {
    fn spec_apply_to(self, _aggregate: TestAggregate) -> TestAggregate {
        TestAggregate { counter: self.0 }
    }

    fn apply_to(self, aggregate: &mut TestAggregate) {
        aggregate.counter = self.0;
    }
}

#[test]
fn test_event_application() {
    let mut hydrated = HydratedAggregate::<TestAggregate>::default();
    assert_eq!(hydrated.version(), Version::Initial);

    hydrated.apply(Increment).unwrap();
    assert_eq!(hydrated.version(), Version::Number(EventNumber::min_value()));
    assert_eq!(hydrated.state().counter, 1);
}

#[test]
fn test_concurrency_check() {
    let mut hydrated = HydratedAggregate::<TestAggregate>::default();

    // Should succeed with correct version
    assert!(hydrated
        .apply_with_concurrency_check(Increment, Version::Initial)
        .is_ok());

    // Should fail with wrong version
    assert!(matches!(
        hydrated.apply_with_concurrency_check(Increment, Version::Initial),
        Err(AggregateError::VersionMismatch { .. })
    ));
}

#[test]
fn test_version_overflow() {
    let mut version = Version::new(u64::MAX);
    assert!(matches!(version.incr(), Err(AggregateError::VersionOverflow)));
    // The version is left unchanged by the failed increment.
    assert_eq!(version, Version::new(u64::MAX));
}

#[test]
fn fresh_aggregate_is_initial() {
    let from_state = HydratedAggregate::new(TestAggregate { counter: 9 });
    assert_eq!(from_state.version(), Version::Initial);
    assert_eq!(from_state.snapshot_version(), None);
    assert_eq!(from_state.state().counter, 9);

    let fresh = HydratedAggregate::<TestAggregate>::default();
    assert_eq!(fresh.version(), Version::Initial);
    assert_eq!(fresh.snapshot_version(), None);
}

#[test]
fn version_counts_applied_events() {
    let mut hydrated = HydratedAggregate::<TestAggregate>::default();
    let events = vec![Increment, Increment, Increment];
    hydrated.apply_events(events).unwrap();
    assert_eq!(hydrated.version(), Version::new(3));
    assert_eq!(hydrated.state().counter, 3);

    hydrated.apply_events(Vec::<Increment>::new()).unwrap();
    assert_eq!(hydrated.version(), Version::new(3));
}

#[test]
fn validate_sequence_from_initial() {
    assert!(Version::new(1).validate_sequence(Version::Initial).is_ok());
    assert_eq!(
        Version::new(2).validate_sequence(Version::Initial),
        Err(AggregateError::InvalidSequence)
    );
}

#[test]
fn validate_sequence_next_number() {
    for k in [1u64, 2, 7, 1000, u64::MAX - 1] {
        assert!(Version::new(k + 1).validate_sequence(Version::new(k)).is_ok());
        assert_eq!(
            Version::new(k).validate_sequence(Version::new(k)),
            Err(AggregateError::InvalidSequence)
        );
    }
    assert_eq!(
        Version::new(3).validate_sequence(Version::new(1)),
        Err(AggregateError::InvalidSequence)
    );
    assert_eq!(
        Version::Initial.validate_sequence(Version::new(1)),
        Err(AggregateError::InvalidSequence)
    );
}

#[test]
fn version_new_zero_is_initial() {
    assert_eq!(Version::new(0), Version::Initial);
    assert_eq!(Version::default(), Version::Initial);
    assert!(Version::Initial < Version::new(1));
    assert!(Version::new(1) < Version::new(2));
}

#[test]
fn event_number_increments() {
    let mut n = EventNumber::min_value();
    assert_eq!(n.get(), 1);
    n.incr().unwrap();
    assert_eq!(n.get(), 2);
}

#[test]
fn counter_scenario_two_events() {
    // Start Initial; set the counter to 1, then increment it.
    let mut hydrated = HydratedAggregate::<TestAggregate>::default();
    assert_eq!(hydrated.version(), Version::Initial);
    hydrated.apply(SetCounter(1)).unwrap();
    hydrated.apply(Increment).unwrap();
    assert_eq!(hydrated.state().counter, 2);
    assert_eq!(hydrated.version(), Version::new(2));
}

#[test]
fn concurrency_conflict_between_two_handles() {
    // Both handles read the aggregate at Number(3).
    let mut base = HydratedAggregate::<TestAggregate>::default();
    base.apply_events(vec![Increment, Increment, Increment]).unwrap();
    assert_eq!(base.version(), Version::new(3));

    let mut handle1 = base.clone();

    // Handle 1 wins the race.
    assert!(handle1
        .apply_with_concurrency_check(Increment, Version::new(3))
        .is_ok());
    assert_eq!(handle1.version(), Version::new(4));

    // Handle 2 retries the identical call against the advanced aggregate.
    let mut handle2 = handle1.clone();
    let before_state = handle2.state().clone();
    let result = handle2.apply_with_concurrency_check(Increment, Version::new(3));
    assert_eq!(
        result,
        Err(AggregateError::VersionMismatch {
            expected: Version::new(3),
            actual: Version::new(4),
        })
    );
    // The failed attempt changed nothing.
    assert_eq!(handle2.version(), Version::new(4));
    assert_eq!(handle2.state(), &before_state);
}

#[test]
fn apply_events_overflow_short_circuits() {
    let mut hydrated = HydratedAggregate::new(TestAggregate { counter: 0 });
    hydrated.state_mut().counter = 0;
    let mut v = Version::new(u64::MAX - 1);
    assert!(v.incr().is_ok());
    assert_eq!(v, Version::new(u64::MAX));
    assert_eq!(v.incr(), Err(AggregateError::VersionOverflow));
}

#[test]
fn snapshot_version_is_recorded() {
    let mut hydrated = HydratedAggregate::<TestAggregate>::default();
    assert_eq!(hydrated.snapshot_version(), None);
    hydrated.set_snapshot_version(Version::new(2));
    assert_eq!(hydrated.snapshot_version(), Some(Version::new(2)));
    assert_eq!(hydrated.version(), Version::Initial);
}

#[test]
fn entity_delegates_to_aggregate() {
    let aggregate = HydratedAggregate::<TestAggregate>::default();
    let mut entity = Entity::new(7u64, aggregate);
    assert_eq!(*entity.id(), 7);
    entity.apply_event(Increment).unwrap();
    assert_eq!(entity.aggregate().version(), Version::new(1));
    assert_eq!(entity.aggregate().state().counter, 1);
    entity.aggregate_mut().set_snapshot_version(Version::new(1));
    assert_eq!(entity.aggregate().snapshot_version(), Some(Version::new(1)));
    let back: HydratedAggregate<TestAggregate> = entity.into();
    assert_eq!(back.version(), Version::new(1));
}

#[test]
fn counter_aggregate_in_library() {
    let mut hydrated = HydratedAggregate::<Counter>::default();
    assert_eq!(hydrated.state().count, 0);
    hydrated.apply(CounterSet(1)).unwrap();
    hydrated.apply(CounterIncremented).unwrap();
    assert_eq!(hydrated.state().count, 2);
    assert_eq!(hydrated.version(), Version::new(2));

    // The increment saturates instead of wrapping.
    let mut top = HydratedAggregate::new(Counter { count: u64::MAX });
    top.apply(CounterIncremented).unwrap();
    assert_eq!(top.state().count, u64::MAX);

    let batch = vec![CounterIncremented, CounterIncremented];
    hydrated.apply_events(batch).unwrap();
    assert_eq!(hydrated.state().count, 4);
    assert_eq!(hydrated.version(), Version::new(4));
}
