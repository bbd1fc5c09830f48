use incubator::users::{
    CommandHandler, CreateUser, InMemoryUserRepository, MockUserRepository, User, UserError,
    UserRepository,
};

#[test]
fn test_trait_object_with_concrete_repo() {
    let mut repo = InMemoryUserRepository::new();
    let user = User::new(1, "test@example.com".to_string()).unwrap();

    repo.add(user.clone()).unwrap();

    // Use as trait object
    let repo_ref: &dyn UserRepository = &repo;
    assert_eq!(repo_ref.get(1), Some(&user));
}

#[test]
fn test_trait_object_with_mock() {
    let mut mock = MockUserRepository::new();
    let user = User::new(1, "test@example.com".to_string()).unwrap();

    mock.add(user.clone()).unwrap();

    // Use as trait object
    let mock_ref: &dyn UserRepository = &mock;
    assert_eq!(mock_ref.get(1), Some(&user));
}

#[test]
fn test_heterogeneous_repository_collection() {
    let mut concrete = InMemoryUserRepository::new();
    let mut mock = MockUserRepository::new();

    let user1 = User::new(1, "user1@example.com".to_string()).unwrap();
    let user2 = User::new(2, "user2@example.com".to_string()).unwrap();

    concrete.add(user1.clone()).unwrap();
    mock.add(user2.clone()).unwrap();

    // Store different implementations in same collection
    let repos: Vec<&dyn UserRepository> = vec![&concrete, &mock];

    assert_eq!(repos.len(), 2);
    assert_eq!(repos[0].get(1), Some(&user1));
    assert_eq!(repos[1].get(2), Some(&user2));
}

#[test]
fn test_valid_command() {
    let cmd = CreateUser::new(1, "valid@example.com".to_string());
    assert!(cmd.is_ok());
}

#[test]
fn test_invalid_email_no_at() {
    let result = CreateUser::new(1, "invalid.com".to_string());
    assert_eq!(
        result.unwrap_err(),
        UserError::InvalidEmail("invalid.com".to_string())
    );
}

#[test]
fn test_invalid_email_empty() {
    let result = CreateUser::new(1, "".to_string());
    assert!(matches!(result.unwrap_err(), UserError::InvalidEmail(_)));
}

#[test]
fn test_invalid_id_zero() {
    let result = CreateUser::new(0, "valid@example.com".to_string());
    assert_eq!(result.unwrap_err(), UserError::InvalidId(0));
}

#[test]
fn test_add_and_get() {
    let mut mock = MockUserRepository::new();
    let user = User::new(1, "test@example.com".to_string()).unwrap();

    mock.add(user.clone()).unwrap();

    assert_eq!(mock.call_count_add, 1);
    assert_eq!(mock.get(1), Some(&user));
}

#[test]
fn test_add_duplicate_fails() {
    let mut mock = MockUserRepository::new();
    let user = User::new(1, "test@example.com".to_string()).unwrap();

    mock.add(user.clone()).unwrap();
    let result = mock.add(user);

    assert_eq!(result.unwrap_err(), UserError::AlreadyExists(1));
    assert_eq!(mock.call_count_add, 2);
}

#[test]
fn test_update_existing_user() {
    let mut mock = MockUserRepository::new();
    let mut user = User::new(1, "test@example.com".to_string()).unwrap();

    mock.add(user.clone()).unwrap();
    user.activate();
    mock.update(user.clone()).unwrap();

    let retrieved = mock.get(1).unwrap();
    assert!(retrieved.is_activated());
}

#[test]
fn test_update_nonexistent_fails() {
    let mut mock = MockUserRepository::new();
    let user = User::new(999, "test@example.com".to_string()).unwrap();

    let result = mock.update(user);
    assert_eq!(result.unwrap_err(), UserError::NotFound(999));
}

#[test]
fn test_remove_user() {
    let mut mock = MockUserRepository::new();
    let user = User::new(1, "test@example.com".to_string()).unwrap();

    mock.add(user.clone()).unwrap();
    let removed = mock.remove(1);

    assert_eq!(removed, Some(user));
    assert_eq!(mock.get(1), None);
}

#[test]
fn test_exists() {
    let mut mock = MockUserRepository::new();
    let user = User::new(1, "test@example.com".to_string()).unwrap();

    assert!(!mock.contains(1));
    mock.add(user).unwrap();
    assert!(mock.contains(1));
}

#[test]
fn test_mock_can_simulate_failures() {
    let mut mock = MockUserRepository::new();
    mock.should_fail_add = true;

    let user = User::new(1, "test@example.com".to_string()).unwrap();
    let result = mock.add(user);

    assert!(result.is_err());
    assert_eq!(mock.call_count_add, 1);
}

#[test]
fn test_mock_with_prepopulated_data() {
    let users = vec![
        User::new(1, "user1@example.com".to_string()).unwrap(),
        User::new(2, "user2@example.com".to_string()).unwrap(),
    ];

    let mock = MockUserRepository::with_users(users.clone());

    assert_eq!(mock.get(1), Some(&users[0]));
    assert_eq!(mock.get(2), Some(&users[1]));
}

#[test]
fn test_valid_user_creation() {
    let user = User::new(1, "valid@example.com".to_string());
    assert!(user.is_ok());
}

#[test]
fn test_invalid_email() {
    let result = User::new(1, "no-at-sign".to_string());
    assert!(matches!(result.unwrap_err(), UserError::InvalidEmail(_)));
}

#[test]
fn test_invalid_id() {
    let result = User::new(0, "valid@example.com".to_string());
    assert_eq!(result.unwrap_err(), UserError::InvalidId(0));
}

#[test]
fn test_user_activation() {
    let mut user = User::new(1, "test@example.com".to_string()).unwrap();
    assert!(!user.is_activated());

    user.activate();
    assert!(user.is_activated());
}

#[test]
fn handler_validates_against_repository() {
    let mut repo = InMemoryUserRepository::new();
    let stored = User::new(1, "alice@example.com".to_string()).unwrap();
    repo.add(stored).unwrap();
    let handler = User::new(10, "some@some.com".to_string()).unwrap();

    let fresh = CreateUser::new(2, "some@some.some".to_string()).unwrap();
    assert!(handler.handle_command(&fresh, &repo).is_ok());

    let duplicate = CreateUser::new(1, "some@some.some".to_string()).unwrap();
    assert_eq!(
        handler.handle_command(&duplicate, &repo),
        Err(UserError::AlreadyExists(1))
    );
}

#[test]
fn in_memory_repository_counts_users() {
    let mut repo = InMemoryUserRepository::with_capacity(4);
    assert_eq!(repo.count(), 0);
    repo.add(User::new(1, "a@b.c".to_string()).unwrap()).unwrap();
    repo.add(User::new(2, "d@e.f".to_string()).unwrap()).unwrap();
    assert_eq!(repo.count(), 2);
    repo.remove(1);
    assert_eq!(repo.count(), 1);
}

#[test]
fn user_email_is_bounded() {
    let long_local = "a".repeat(300);
    let result = User::new(1, format!("{}@x.y", long_local));
    assert!(matches!(result.unwrap_err(), UserError::InvalidEmail(_)));
}
