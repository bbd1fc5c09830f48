use incubator::dispatch::{BTreeMapStorage, HashMapStorage, User, UserRepository};

#[test]
fn main_test_add_and_get_user() {
    let mut repo = UserRepository::new(HashMapStorage::new());
    let user = User::new(1, "test@example.com".to_string());

    repo.add(user.clone()).unwrap();
    assert_eq!(repo.get(1), Some(&user));
}

#[test]
fn main_test_add_duplicate_user_fails() {
    let mut repo = UserRepository::new(HashMapStorage::new());
    let user = User::new(1, "test@example.com".to_string());

    repo.add(user.clone()).unwrap();
    let result = repo.add(user);

    assert!(result.is_err());
    assert!(result.unwrap_err().contains("already exists"));
}

#[test]
fn main_test_update_user() {
    let mut repo = UserRepository::new(HashMapStorage::new());
    let mut user = User::new(1, "test@example.com".to_string());

    repo.add(user.clone()).unwrap();
    user.activate();
    repo.update(user.clone()).unwrap();

    let retrieved = repo.get(1).unwrap();
    assert!(retrieved.activated);
}

#[test]
fn main_test_update_nonexistent_user_fails() {
    let mut repo = UserRepository::new(HashMapStorage::new());
    let user = User::new(999, "test@example.com".to_string());

    let result = repo.update(user);
    assert!(result.is_err());
    assert!(result.unwrap_err().contains("not found"));
}

#[test]
fn main_test_remove_user() {
    let mut repo = UserRepository::new(HashMapStorage::new());
    let user = User::new(1, "test@example.com".to_string());

    repo.add(user.clone()).unwrap();
    let removed = repo.remove(1);

    assert_eq!(removed, Some(user));
    assert_eq!(repo.get(1), None);
}

#[test]
fn main_test_remove_nonexistent_user() {
    let mut repo = UserRepository::new(HashMapStorage::<User>::new());
    assert_eq!(repo.remove(999), None);
}

#[test]
fn main_test_btreemap_storage() {
    let mut repo = UserRepository::new(BTreeMapStorage::new());
    let user = User::new(1, "test@example.com".to_string());

    repo.add(user.clone()).unwrap();
    assert_eq!(repo.get(1), Some(&user));
}

#[test]
fn main_test_multiple_users() {
    let mut repo = UserRepository::new(HashMapStorage::new());

    for i in 1..=10 {
        let user = User::new(i, format!("user{}@example.com", i));
        repo.add(user).unwrap();
    }

    for i in 1..=10 {
        assert!(repo.get(i).is_some());
    }

    repo.remove(5);
    assert!(repo.get(5).is_none());
}

#[test]
fn repository_count_probes_low_ids() {
    let mut repo = UserRepository::new(BTreeMapStorage::new());
    assert_eq!(repo.count(), 0);
    repo.add(User::new(3, "a@b.c".to_string())).unwrap();
    repo.add(User::new(999, "d@e.f".to_string())).unwrap();
    // Only identifiers below 1000 are probed.
    repo.add(User::new(4200, "g@h.i".to_string())).unwrap();
    assert_eq!(repo.count(), 2);
}
