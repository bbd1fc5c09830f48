use incubator::dates::{days_in_month, is_leap_year, now_date, Date, User};

#[test]
fn counts_age() {
    for ((y, m, d), expected) in vec![
        ((1990, 6, 4), 29),
        ((1990, 7, 4), 28),
        ((0, 1, 1), 2019),
        ((1970, 1, 1), 49),
        ((2019, 6, 25), 0),
    ] {
        let user = User::with_birthdate(y, m, d);
        assert_eq!(user.age(), expected);
    }
}

#[test]
fn zero_if_birthdate_in_future() {
    for ((y, m, d), expected) in vec![
        ((2032, 6, 25), 0),
        ((2019, 6, 27), 0),
        ((3000, 6, 27), 0),
        ((9999, 6, 27), 0),
    ] {
        let user = User::with_birthdate(y, m, d);
        assert_eq!(user.age(), expected);
    }
}

#[test]
fn checks_adult_boundary() {
    let not_adult = User::with_birthdate(2001, 6, 27);
    assert!(!not_adult.is_adult());

    let adult_on_birthday = User::with_birthdate(2001, 6, 26);
    assert!(adult_on_birthday.is_adult());
}

#[test]
fn returns_zero_for_invalid_birthdate() {
    for (y, m, d) in vec![(2019, 2, 29), (2019, 13, 1), (2019, 0, 10)] {
        let user = User::with_birthdate(y, m, d);
        assert_eq!(user.age(), 0);
        assert!(!user.is_adult());
    }
}

#[test]
fn leap_year_rules() {
    assert!(is_leap_year(2000));
    assert!(is_leap_year(2016));
    assert!(!is_leap_year(1900));
    assert!(!is_leap_year(2019));
    assert_eq!(days_in_month(2016, 2), 29);
    assert_eq!(days_in_month(2019, 2), 28);
    assert_eq!(days_in_month(2019, 4), 30);
    assert_eq!(days_in_month(2019, 12), 31);
    assert_eq!(days_in_month(2019, 13), 0);
}

#[test]
fn date_validation() {
    assert!(Date::new(2016, 2, 29).is_some());
    assert!(Date::new(2019, 2, 29).is_none());
    assert!(Date::new(2019, 0, 1).is_none());
    assert!(Date::new(2019, 6, 31).is_none());
    let today = now_date();
    assert_eq!(Some(today), Date::new(2019, 6, 26));
}
