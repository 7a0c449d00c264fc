use crowdsource::notifiers::{CollectingUserNotifier, EmailUserNotifier};
use crowdsource::ports::{CrowdSrcService, UserNotifier, UserRepository};
use crowdsource::service::Service;
use crowdsource::store::InMemoryUserRepository;
use crowdsource::user::{
    CreateUserError, CreateUserRequest, EmailAddress, User, UserName, UserNameError,
};

fn request(name: &str, email: &str) -> CreateUserRequest {
    CreateUserRequest::new(UserName::new(name).unwrap(), EmailAddress::new(email).unwrap())
}

#[test]
fn whitespace_only_names_are_empty() {
    for raw in ["", " ", "   ", "\t\n", "\u{a0}\u{3000}"] {
        assert_eq!(UserName::new(raw), Err(UserNameError::Empty), "{:?}", raw);
    }
}

#[test]
fn interior_whitespace_reports_raw_input() {
    assert_eq!(
        UserName::new("  a b  "),
        Err(UserNameError::WithWhitespace {
            invalid_username: "  a b  ".to_string()
        })
    );
    assert_eq!(
        UserName::new("a\tb"),
        Err(UserNameError::WithWhitespace {
            invalid_username: "a\tb".to_string()
        })
    );
}

#[test]
fn names_are_trimmed() {
    assert_eq!(UserName::new("  bob \n").unwrap().as_str(), "bob");
    assert_eq!(UserName::new("Kristoffer").unwrap().as_str(), "Kristoffer");
}

#[test]
fn emails_are_parsed_and_round_trip() {
    let e = EmailAddress::new("kristoffer@example.com").unwrap();
    assert_eq!(e.as_str(), "kristoffer@example.com");
    let again = EmailAddress::new(e.as_str()).unwrap();
    assert_eq!(again, e);
    for bad in ["", "plain", "a@", "@b.com", "a b@c.com"] {
        let err = EmailAddress::new(bad).unwrap_err();
        assert_eq!(err.invalid_email, bad);
        assert!(!err.message.is_empty());
    }
}

#[test]
fn stored_name_is_refused_without_second_row() {
    let mut repo = InMemoryUserRepository::new();
    repo.create_user(&request("alice", "alice@example.com")).unwrap();
    let r = repo.create_user(&request("alice", "other@example.com"));
    match r {
        Err(CreateUserError::DuplicateUserName { username }) => {
            assert_eq!(username.as_str(), "alice")
        }
        other => panic!("unexpected {:?}", other),
    }
    assert_eq!(repo.len(), 1);
}

#[test]
fn stored_email_is_refused_without_second_row() {
    let mut repo = InMemoryUserRepository::new();
    repo.create_user(&request("alice", "alice@example.com")).unwrap();
    let r = repo.create_user(&request("bob", "alice@example.com"));
    match r {
        Err(CreateUserError::DuplicateEmail { email }) => {
            assert_eq!(email.as_str(), "alice@example.com")
        }
        other => panic!("unexpected {:?}", other),
    }
    assert_eq!(repo.len(), 1);
}

#[test]
fn same_identity_twice_succeeds_once() {
    let mut repo = InMemoryUserRepository::new();
    let req = request("carol", "carol@example.com");
    let first = repo.create_user(&req);
    let second = repo.create_user(&req);
    assert!(first.is_ok());
    assert!(matches!(second, Err(CreateUserError::DuplicateEmail { .. })));
    assert_eq!(repo.len(), 1);
}

#[test]
fn taken_identifier_is_unknown_error() {
    let mut repo = InMemoryUserRepository::new();
    let u = repo.insert(7, &request("dave", "dave@example.com"), 10).unwrap();
    assert_eq!(u.id(), 7);
    assert_eq!(u.created_at(), 10);
    let r = repo.insert(7, &request("erin", "erin@example.com"), 11);
    assert!(matches!(r, Err(CreateUserError::Unknown(_))));
    assert_eq!(repo.len(), 1);
}

#[test]
fn notifier_told_once_on_success_only() {
    let mut service = Service::new(InMemoryUserRepository::new(), CollectingUserNotifier::new());
    let req = request("frank", "frank@example.com");
    let created = service.create_user(&req).unwrap();
    assert_eq!(
        service.user_notifier().payload_for(created.email()),
        Some(String::new())
    );
    assert!(service.create_user(&req).is_err());
    assert_eq!(service.user_repo().len(), 1);
    let other = EmailAddress::new("nobody@example.com").unwrap();
    assert_eq!(service.user_notifier().payload_for(&other), None);
}

#[test]
fn email_notifier_accepts_users() {
    let mut n = EmailUserNotifier::new();
    let u = User::new(
        1,
        UserName::new("gina").unwrap(),
        EmailAddress::new("gina@example.com").unwrap(),
        0,
    );
    n.user_created(&u);
    let mut service = Service::new(InMemoryUserRepository::new(), EmailUserNotifier::new());
    assert!(service.create_user(&request("gina", "gina@example.com")).is_ok());
}

#[test]
fn collecting_notifier_keeps_one_entry_per_address() {
    let mut n = CollectingUserNotifier::new();
    let email = EmailAddress::new("ivy@example.com").unwrap();
    let u = User::new(1, UserName::new("ivy").unwrap(), email.clone(), 0);
    n.user_created(&u);
    n.user_created(&u);
    assert_eq!(n.payload_for(&email), Some(String::new()));
    let other = EmailAddress::new("jay@example.com").unwrap();
    assert_eq!(n.payload_for(&other), None);
}

#[test]
fn email_equality_ignores_domain_case_only() {
    let a = EmailAddress::new("kim@Example.COM").unwrap();
    let b = EmailAddress::new("kim@example.com").unwrap();
    let c = EmailAddress::new("Kim@example.com").unwrap();
    assert_eq!(a, b);
    assert_ne!(b, c);
    assert!(!a.is_same(&b));
}
