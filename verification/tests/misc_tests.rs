use incubator::geometry::{Point, Polyline};
use incubator::maps::btreemap;
use incubator::post::{Post, PostData};
use incubator::postdata;
use incubator::stream::{
    visibility_from_bool, visibility_to_bool, Duration, Gift, GiftId, Price, PublicTariff,
    PublicTariffId, ResponseKind, StreamSettings, StreamVisibility,
};
use incubator::trinity::cloning;
use incubator::trinity::{Solver, Trinity};
use incubator::userdata;
use std::collections::BTreeMap;

#[test]
fn declarative_macro_creates_empty_map() {
    let map: BTreeMap<u32, u32> = btreemap(vec![]);
    assert!(map.is_empty());
}

#[test]
fn declarative_macro_creates_sorted_map() {
    let map = btreemap(vec![(3, "three"), (1, "one"), (2, "two")]);

    let keys = map.keys().copied().collect::<Vec<_>>();
    assert_eq!(keys, vec![1, 2, 3]);
}

#[test]
fn btreemap_later_entries_overwrite() {
    let map = btreemap(vec![(1u32, "one"), (1, "uno")]);
    assert_eq!(map.get(&1), Some(&"uno"));
    assert_eq!(map.len(), 1);
}

#[test]
fn polyline_rejects_empty_input() {
    assert!(Polyline::new(Vec::new()).is_none());
    assert!(Polyline::from_points(&[]).is_none());
    let points = vec![Point { x: 0, y: 0 }, Point { x: 10, y: 0 }];
    let line = Polyline::new(points.clone()).unwrap();
    assert_eq!(line.points, points);
    let copied = Polyline::from_points(&points).unwrap();
    assert_eq!(copied.points, points);
    let cloned = line.clone();
    assert_eq!(cloned.points.len(), 2);
}

#[test]
fn trinity_rotation_cycles() {
    let mut t = Trinity { a: 1, b: 2, c: 3 };
    t.rotate();
    assert_eq!(t, Trinity { a: 2, b: 3, c: 1 });
    t.rotate();
    t.rotate();
    assert_eq!(t, Trinity { a: 1, b: 2, c: 3 });
}

#[test]
fn solver_discards_rotatable_triples() {
    let mut s = Solver::new(
        Trinity { a: 1, b: 2, c: 3 },
        vec![
            Trinity { a: 1, b: 2, c: 3 },
            Trinity { a: 2, b: 1, c: 3 },
            Trinity { a: 2, b: 3, c: 1 },
            Trinity { a: 3, b: 1, c: 2 },
        ],
    );
    s.resolve();
    assert_eq!(s.unsolved, vec![Trinity { a: 2, b: 1, c: 3 }]);
    assert_eq!(s.expected, Trinity { a: 1, b: 2, c: 3 });
}

#[test]
fn cloning_solver_behaves_identically() {
    let mut s = cloning::Solver::new(
        cloning::Trinity { a: 1, b: 2, c: 3 },
        vec![
            cloning::Trinity { a: 1, b: 2, c: 3 },
            cloning::Trinity { a: 2, b: 1, c: 3 },
            cloning::Trinity { a: 2, b: 3, c: 1 },
            cloning::Trinity { a: 3, b: 1, c: 2 },
        ],
    );
    s.resolve();
    assert_eq!(s.unsolved, vec![cloning::Trinity { a: 2, b: 1, c: 3 }]);
}

#[test]
fn post_walks_the_moderation_path() {
    let post: Post<incubator::post::New> = Post::<incubator::post::New>::new();
    let unmoderated = post.publish();
    let published = unmoderated.allow();
    let _deleted = published.delete();

    let again: Post<incubator::post::New> = Post::<incubator::post::New>::new();
    let _denied = again.publish().deny();
}

#[test]
fn post_data_carries_fields() {
    let data = PostData::new(
        postdata::Id(4),
        userdata::Id(9),
        postdata::Title("hello".to_string()),
        postdata::Body("world".to_string()),
    );
    let copy = data.clone();
    assert_eq!(copy, data);
    let fresh = PostData::default();
    assert_ne!(fresh, data);
}

#[test]
fn visibility_maps_to_is_private_boolean() {
    assert_eq!(visibility_from_bool(true), StreamVisibility::Private);
    assert_eq!(visibility_from_bool(false), StreamVisibility::Public);
    assert!(visibility_to_bool(&StreamVisibility::Private));
    assert!(!visibility_to_bool(&StreamVisibility::Public));
    for v in [StreamVisibility::Public, StreamVisibility::Private] {
        assert_eq!(visibility_from_bool(visibility_to_bool(&v)), v);
    }
}

#[test]
fn stream_model_values() {
    let tariff = PublicTariff {
        id: PublicTariffId(1),
        price: Price(100),
        duration: Duration::from_secs(3600),
        description: "test public tariff".to_string(),
    };
    assert_eq!(tariff.duration.secs(), 3600);
    assert_eq!(tariff.duration.nanos(), 0);

    let ms = Duration::from_millis(234);
    assert_eq!(ms.secs(), 0);
    assert_eq!(ms.nanos(), 234_000_000);

    let gift = Gift {
        id: GiftId(2),
        price: Price(3),
        description: "hat".to_string(),
    };
    assert_eq!(gift.id, GiftId(2));
    assert_eq!(ResponseKind::Success, ResponseKind::Success);
    assert_eq!(StreamSettings(10).0, 10);
}
