use incubator::collections::{
    ImmutableUsersRepository, Nickname, NicknameError, NicknameQuery, NicknameQueryError, User,
    UserId, UserIdError, UsersRepository, UsersRepositoryError,
};

fn user(user_id: u64, nickname: &str) -> User {
    User::new(
        UserId::new(user_id).unwrap(),
        Nickname::new(nickname.to_string()).unwrap(),
    )
}

fn repository() -> ImmutableUsersRepository {
    ImmutableUsersRepository::new(vec![
        user(1, "alice"),
        user(2, "bob"),
        user(3, "alice_wonder"),
    ])
    .unwrap()
}

#[test]
fn get_user_by_id_returns_matching_user() {
    let repository = repository();
    let found = repository.get_user_by_id(UserId::new(2).unwrap());

    assert_eq!(found, Some(user(2, "bob")));
}

#[test]
fn get_users_by_ids_returns_existing_users_in_requested_order() {
    let repository = repository();
    let ids = vec![
        UserId::new(2).unwrap(),
        UserId::new(99).unwrap(),
        UserId::new(1).unwrap(),
        UserId::new(2).unwrap(),
    ];

    let users = repository.get_users_by_ids(&ids);

    assert_eq!(users, vec![user(2, "bob"), user(1, "alice"), user(2, "bob")]);
}

#[test]
fn search_user_ids_by_nickname_returns_matching_ids() {
    let repository = repository();
    let query = NicknameQuery::new("alice".to_string()).unwrap();

    let user_ids = repository.search_user_ids_by_nickname(&query);

    assert_eq!(
        user_ids,
        vec![UserId::new(1).unwrap(), UserId::new(3).unwrap()]
    );
}

#[test]
fn repository_creation_fails_on_duplicate_user_id() {
    let error =
        ImmutableUsersRepository::new(vec![user(7, "first"), user(7, "second")]).unwrap_err();

    assert_eq!(
        error,
        UsersRepositoryError::DuplicateUserId(UserId::new(7).unwrap())
    );
}

#[test]
fn nickname_query_rejects_empty_value() {
    let error = NicknameQuery::new("   ".to_string()).unwrap_err();

    assert_eq!(error, NicknameQueryError::EmptyValue);
}

#[test]
fn user_id_rejects_zero() {
    assert_eq!(UserId::new(0).unwrap_err(), UserIdError::ZeroValue);
    assert_eq!(UserId::new(5).unwrap().get(), 5);
}

#[test]
fn nickname_rejects_blank() {
    assert_eq!(
        Nickname::new("\t \n".to_string()).unwrap_err(),
        NicknameError::EmptyValue
    );
    assert_eq!(Nickname::new("zoe".to_string()).unwrap().as_str(), "zoe");
}

#[test]
fn repository_stores_out_of_order_inputs_sorted() {
    let repo =
        ImmutableUsersRepository::new(vec![user(9, "zed_x"), user(2, "amy_x"), user(5, "kim_x")])
            .unwrap();
    let query = NicknameQuery::new("_x".to_string()).unwrap();
    // Search reports identifiers in ascending order, whatever the input order.
    let ids = repo.search_user_ids_by_nickname(&query);
    assert_eq!(
        ids,
        vec![
            UserId::new(2).unwrap(),
            UserId::new(5).unwrap(),
            UserId::new(9).unwrap()
        ]
    );
}
