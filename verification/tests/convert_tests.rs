use incubator::convert::{EmailString, Random};

#[test]
fn email_string_valid() {
    assert!(EmailString::try_from("user@example.com".to_string()).is_ok());
    assert!(EmailString::try_from("test.user@sub.domain.com".to_string()).is_ok());
    assert!(EmailString::try_from("a@b.c".to_string()).is_ok());
}

#[test]
fn email_string_invalid() {
    assert!(EmailString::try_from("".to_string()).is_err());
    assert!(EmailString::try_from("notanemail".to_string()).is_err());
    assert!(EmailString::try_from("missing@domain".to_string()).is_err());
    assert!(EmailString::try_from("@nodomain.com".to_string()).is_err());
    assert!(EmailString::try_from("noat.com".to_string()).is_err());
}

#[test]
fn email_string_as_ref() {
    let email = EmailString::try_from("test@test.com".to_string()).unwrap();
    let s: &str = email.as_str();
    assert_eq!(s, "test@test.com");

    let bytes: &[u8] = email.as_str().as_bytes();
    assert_eq!(bytes, b"test@test.com");
}

#[test]
fn email_string_borrow() {
    let email = EmailString::try_from("test@test.com".to_string()).unwrap();
    let borrowed: &str = email.as_str();
    assert_eq!(borrowed, "test@test.com");
}

#[test]
fn email_string_display() {
    let email = EmailString::try_from("display@test.com".to_string()).unwrap();
    assert_eq!(email.as_str(), "display@test.com");
}

#[test]
fn email_string_into_string() {
    let email = EmailString::try_from("convert@test.com".to_string()).unwrap();
    let string: String = email.into();
    assert_eq!(string, "convert@test.com");
}

#[test]
fn email_string_equality() {
    let email1 = EmailString::try_from("same@test.com".to_string()).unwrap();
    let email2 = EmailString::try_from("same@test.com".to_string()).unwrap();
    let email3 = EmailString::try_from("different@test.com".to_string()).unwrap();

    assert_eq!(email1, email2);
    assert_ne!(email1, email3);
}

#[test]
fn email_string_error_details() {
    let err = EmailString::try_from("double@@example.com".to_string()).unwrap_err();
    assert_eq!(err.reason(), "email must have exactly one '@'");
    assert_eq!(err.invalid_input(), "double@@example.com");

    let err = EmailString::try_from("".to_string()).unwrap_err();
    assert_eq!(err.reason(), "email cannot be empty");

    let err = EmailString::try_from("nolocal".to_string()).unwrap_err();
    assert_eq!(err.reason(), "email must contain '@'");

    let err = EmailString::try_from("a@b".to_string()).unwrap_err();
    assert_eq!(err.reason(), "email must contain '.'");

    let err = EmailString::try_from("@nodomain.com".to_string()).unwrap_err();
    assert_eq!(err.reason(), "local part cannot be empty");

    let err = EmailString::try_from("x.y@".to_string()).unwrap_err();
    assert_eq!(err.reason(), "domain part cannot be empty");
}

#[test]
fn random_clone() {
    let mut rand1 = Random::new(1, 2, 3);
    let mut rand2 = rand1.clone();

    // Both should return valid values
    let val1 = *rand1.draw();
    let val2 = *rand2.draw();
    assert!(val1 >= 1 && val1 <= 3);
    assert!(val2 >= 1 && val2 <= 3);
}

#[test]
fn random_returns_valid_values() {
    let mut rand = Random::new(1, 2, 3);
    for _ in 0..20 {
        let val = *rand.draw();
        assert!(val == 1 || val == 2 || val == 3);
    }
}

#[test]
fn random_deref_works() {
    let mut rand = Random::new("a".to_string(), "b".to_string(), "c".to_string());
    let s: &str = rand.draw();
    assert!(s == "a" || s == "b" || s == "c");
}

#[test]
fn random_from_array() {
    let mut rand = Random::from([10, 20, 30]);
    let val = *rand.draw();
    assert!(val == 10 || val == 20 || val == 30);
}

#[test]
fn random_last_index_tracking() {
    let mut rand = Random::new(10, 20, 30);
    let value = *rand.draw();
    let idx = rand.last_index();
    assert!(idx < 3);
    assert_eq!(value, [10, 20, 30][idx]);
}
