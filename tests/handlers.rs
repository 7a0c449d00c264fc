use crowdsource::http::{
    create_user, ApiError, ApiSuccess, CreateUserHttpRequestBody, CreateUserResponseData,
};
use crowdsource::notifiers::CollectingUserNotifier;
use crowdsource::ports::{AnswerLog, CrowdSrcService};
use crowdsource::service::Service;
use crowdsource::store::InMemoryUserRepository;
use crowdsource::user::{CreateUserError, CreateUserRequest, EmailAddress, User, UserName};
use uuid::Uuid;

struct MockCrowdSrcService {
    create_user_result: Option<Result<User, CreateUserError>>,
}

impl CrowdSrcService for MockCrowdSrcService {
    fn answers(&self) -> AnswerLog {
        unreachable!("the log of answers exists for proofs only")
    }

    fn create_user(&mut self, _: &CreateUserRequest) -> Result<User, CreateUserError> {
        self.create_user_result
            .take()
            .unwrap_or_else(|| Err(CreateUserError::Unknown("substitute error".to_string())))
    }
}

fn run_create_user(
    service: &mut MockCrowdSrcService,
    user_name: &UserName,
    user_email: &EmailAddress,
) -> Result<ApiSuccess<CreateUserResponseData>, ApiError> {
    let body = CreateUserHttpRequestBody {
        username: user_name.as_str().to_string(),
        email_address: user_email.as_str().to_string(),
    };
    create_user(service, body)
}

#[test]
fn test_create_user_fails_if_email_exists() {
    let user_name = UserName::new("Kristoffer").unwrap();
    let user_email = EmailAddress::new("kristoffer@example.com").unwrap();
    let mut service = MockCrowdSrcService {
        create_user_result: Some(Err(CreateUserError::DuplicateEmail {
            email: user_email.clone(),
        })),
    };

    let actual = run_create_user(&mut service, &user_name, &user_email);

    assert!(
        actual.is_err(),
        "expected create_user to fail, but got {:?}",
        actual
    );

    let expected_err = ApiError::UnprocessableEntity(format!(
        "user with email '{}' already exists",
        user_email.as_str()
    ));
    let actual_err = actual.unwrap_err();
    assert_eq!(
        actual_err, expected_err,
        "expected ApiError {:?}, but got {:?}",
        expected_err, actual_err
    )
}

#[test]
fn test_create_user_fails_if_username_exists() {
    let user_name = UserName::new("Kristoffer").unwrap();
    let user_email = EmailAddress::new("kristoffer@example.com").unwrap();
    let mut service = MockCrowdSrcService {
        create_user_result: Some(Err(CreateUserError::DuplicateUserName {
            username: user_name.clone(),
        })),
    };

    let actual = run_create_user(&mut service, &user_name, &user_email);

    assert!(
        actual.is_err(),
        "expected create_user to fail, but got {:?}",
        actual
    );

    let expected_err = ApiError::UnprocessableEntity(format!(
        "user with username {} already exists",
        user_name.as_str()
    ));
    let actual_err = actual.unwrap_err();
    assert_eq!(
        actual_err, expected_err,
        "expected ApiError {:?}, but got {:?}",
        expected_err, actual_err
    )
}

#[test]
fn test_create_user_success() {
    let user_name = UserName::new("Kristoffer").unwrap();
    let user_email = EmailAddress::new("kristoffer@example.com").unwrap();
    let user_id = Uuid::new_v4();
    let mut service = MockCrowdSrcService {
        create_user_result: Some(Ok(User::new(
            user_id.as_u128(),
            user_name.clone(),
            user_email.clone(),
            0,
        ))),
    };

    let actual = run_create_user(&mut service, &user_name, &user_email);

    assert!(
        actual.is_ok(),
        "expected create_user to succeed, but got {:?}",
        actual
    );
    let expected = ApiSuccess::new(
        201,
        CreateUserResponseData {
            id: user_id.to_string(),
        },
    );
    let actual = actual.unwrap();
    assert_eq!(
        actual, expected,
        "expected ApiSuccess {:?}, but got {:?}",
        expected, actual
    )
}

#[test]
fn test_create_user_unknown_error_is_internal() {
    let user_name = UserName::new("Kristoffer").unwrap();
    let user_email = EmailAddress::new("kristoffer@example.com").unwrap();
    let mut service = MockCrowdSrcService {
        create_user_result: Some(Err(CreateUserError::Unknown("connection reset".to_string()))),
    };
    let actual = run_create_user(&mut service, &user_name, &user_email);
    let err = actual.unwrap_err();
    assert_eq!(
        err,
        ApiError::InternalServerError("Internal server error".to_string())
    );
    let body = err.into_body();
    assert_eq!(body.status_code, 500);
    assert_eq!(body.data.message, "Internal server error");
}

fn new_service() -> Service<InMemoryUserRepository, CollectingUserNotifier> {
    Service::new(InMemoryUserRepository::new(), CollectingUserNotifier::new())
}

fn body(username: &str, email: &str) -> CreateUserHttpRequestBody {
    CreateUserHttpRequestBody {
        username: username.to_string(),
        email_address: email.to_string(),
    }
}

#[test]
fn add_user_returns_201_for_valid_data() {
    let mut service = new_service();
    let response = create_user(&mut service, body("user", "user@example.com"));
    let response = response.expect("Failed to execute request.");
    assert_eq!(201, response.status);
    let saved = &service.user_repo().stored_users()[0];
    assert_eq!(saved.email().as_str(), "user@example.com");
    assert_eq!(saved.username().as_str(), "user");
}

#[test]
fn kristoffer_is_created_in_empty_store() {
    let mut service = new_service();
    let response = create_user(&mut service, body("Kristoffer", "kristoffer@example.com")).unwrap();
    assert_eq!(response.status, 201);
    assert_eq!(response.body.status_code, 201);
    let stored = &service.user_repo().stored_users()[0];
    assert_eq!(response.body.data.id, Uuid::from_u128(stored.id()).to_string());
    assert!(Uuid::parse_str(&response.body.data.id).is_ok());
    assert_eq!(response.body.data.id.len(), 36);
    assert_eq!(response.body.data.id.matches('-').count(), 4);
    assert_eq!(response.body.data.id, response.body.data.id.to_lowercase());
}

#[test]
fn same_input_twice_reports_duplicate_email() {
    let mut service = new_service();
    create_user(&mut service, body("Kristoffer", "kristoffer@example.com")).unwrap();
    let second = create_user(&mut service, body("Kristoffer", "kristoffer@example.com"));
    assert_eq!(
        second.unwrap_err(),
        ApiError::UnprocessableEntity(
            "user with email 'kristoffer@example.com' already exists".to_string()
        )
    );
    assert_eq!(service.user_repo().len(), 1);
    let email = EmailAddress::new("kristoffer@example.com").unwrap();
    assert_eq!(service.user_notifier().payload_for(&email), Some(String::new()));
}

#[test]
fn blank_username_is_empty() {
    let mut service = new_service();
    let r = create_user(&mut service, body("  ", "x@y.com"));
    let err = r.unwrap_err();
    assert_eq!(
        err,
        ApiError::UnprocessableEntity("username can't be empty".to_string())
    );
    assert_eq!(service.user_repo().len(), 0);
    let body = err.into_body();
    assert_eq!(body.status_code, 422);
    assert_eq!(body.data.message, "username can't be empty");
}

#[test]
fn username_with_space_is_not_valid() {
    let mut service = new_service();
    let r = create_user(&mut service, body("a b", "x@y.com"));
    assert_eq!(
        r.unwrap_err(),
        ApiError::UnprocessableEntity("username 'a b' is not valid".to_string())
    );
}

#[test]
fn invalid_email_is_reported() {
    let mut service = new_service();
    let r = create_user(&mut service, body("bob", "not-an-email"));
    assert_eq!(
        r.unwrap_err(),
        ApiError::UnprocessableEntity("email address not-an-email is invalid".to_string())
    );
    assert_eq!(service.user_repo().len(), 0);
}
