use crowdsource::storage::{
    insert_failure_error, is_unique_constraint_violation, write_result, InsertFailure,
    WriteFailure,
};
use crowdsource::user::{CreateUserError, CreateUserRequest, EmailAddress, UserName};

fn request() -> CreateUserRequest {
    CreateUserRequest::new(
        UserName::new("hank").unwrap(),
        EmailAddress::new("hank@example.com").unwrap(),
    )
}

fn failure(code: Option<&str>, constraint: Option<&str>) -> InsertFailure {
    InsertFailure {
        code: code.map(|c| c.to_string()),
        constraint: constraint.map(|c| c.to_string()),
        detail: "boom".to_string(),
    }
}

#[test]
fn unique_violation_codes() {
    assert!(!is_unique_constraint_violation(Some("2067")));
    assert!(is_unique_constraint_violation(Some("23505")));
    assert!(!is_unique_constraint_violation(Some("23503")));
    assert!(!is_unique_constraint_violation(Some("206")));
    assert!(!is_unique_constraint_violation(None));
}

#[test]
fn username_constraint_gives_duplicate_name() {
    let e = insert_failure_error(&request(), &failure(Some("23505"), Some("users_username_key")));
    assert!(matches!(e, CreateUserError::DuplicateUserName { ref username } if username.as_str() == "hank"));
}

#[test]
fn other_or_unnamed_constraint_gives_duplicate_email() {
    let e = insert_failure_error(&request(), &failure(Some("23505"), None));
    assert!(matches!(e, CreateUserError::DuplicateEmail { ref email } if email.as_str() == "hank@example.com"));
    let e = insert_failure_error(&request(), &failure(Some("23505"), Some("users_email_key")));
    assert!(matches!(e, CreateUserError::DuplicateEmail { .. }));
}

#[test]
fn other_failure_is_unknown_with_context() {
    let e = insert_failure_error(&request(), &failure(Some("08006"), None));
    match e {
        CreateUserError::Unknown(m) => assert_eq!(
            m,
            "failed to save user with username hank and email hank@example.com: boom"
        ),
        other => panic!("unexpected {:?}", other),
    }
}

#[test]
fn write_outcomes() {
    let u = write_result(&request(), 42, 99, &Ok(())).unwrap();
    assert_eq!(u.id(), 42);
    assert_eq!(u.created_at(), 99);
    assert_eq!(u.username().as_str(), "hank");
    match write_result(&request(), 1, 1, &Err(WriteFailure::Begin("down".to_string()))) {
        Err(CreateUserError::Unknown(m)) => {
            assert_eq!(m, "failed to start Postgres transaction: down")
        }
        other => panic!("unexpected {:?}", other),
    }
    match write_result(&request(), 1, 1, &Err(WriteFailure::Commit("lost".to_string()))) {
        Err(CreateUserError::Unknown(m)) => {
            assert_eq!(m, "failed to commit Postgres transaction: lost")
        }
        other => panic!("unexpected {:?}", other),
    }
    let r = write_result(
        &request(),
        1,
        1,
        &Err(WriteFailure::Insert(failure(Some("23505"), Some("users_username_key")))),
    );
    assert!(matches!(r, Err(CreateUserError::DuplicateUserName { .. })));
}
