use incubator::email::EmailString;
use incubator::random::Random;

#[test]
fn email_test() {
    assert!(EmailString::try_from("".to_string()).is_err());
    assert!(EmailString::try_from("test".to_string()).is_err());
    assert!(EmailString::try_from("test@".to_string()).is_err());
    assert!(EmailString::try_from("test@test".to_string()).is_err());
    assert!(EmailString::try_from("@test@test".to_string()).is_err());
    assert!(EmailString::try_from("@test@".to_string()).is_err());
    assert!(EmailString::try_from("test@test.".to_string()).is_err());
    assert!(EmailString::try_from("test@test.a".to_string()).is_err());
    assert!(EmailString::try_from("test@test.ab".to_string()).is_ok());
}

#[test]
fn email_pattern_details() {
    let ok = EmailString::try_from("a.b%c@x-1.y.org".to_string()).unwrap();
    assert_eq!(ok.as_str(), "a.b%c@x-1.y.org");
    let back: String = ok.into();
    assert_eq!(back, "a.b%c@x-1.y.org");

    // A space is not a legal local character.
    assert!(EmailString::try_from("a b@test.org".to_string()).is_err());
    // The final label must be letters only.
    assert!(EmailString::try_from("test@test.a1".to_string()).is_err());
}

#[test]
fn random_test() {
    let rand_val = Random::new(1, 2, 3);
    assert!([1, 2, 3].contains(rand_val.value()));
}
