use user_service::commands::AddUserCommand;
use user_service::email::EmailError;
use user_service::entities::User;
use user_service::in_memory::InMemoryUserRepository;
use user_service::model::{ModelError, UserModel};
use user_service::password::PasswordError;
use user_service::repository::{StoreError, UserRepositories};
use user_service::user_id::UserId;
use user_service::user_service::{RegistrationError, UserApplicationService};
use user_service::username::{UserNameError, Username};

fn cmd(username: &str, password: &str, email: &str) -> AddUserCommand {
    AddUserCommand {
        username: username.to_string(),
        password: password.to_string(),
        email: email.to_string(),
    }
}

#[test]
fn test_registration_persists_normalized_account() {
    let mut service = UserApplicationService::new(InMemoryUserRepository::new());
    let id = service
        .create(cmd("alice_01", "correcthorsebattery", "Alice@Test.com"))
        .unwrap();

    let handle = Username::new("alice_01").unwrap();
    let stored = service.user_repo.find_by_id(&handle).unwrap();
    assert_eq!(stored.id, id);
    assert_eq!(stored.username.as_str(), "alice_01");
    assert_eq!(stored.email_address.as_str(), "alice@test.com");
    assert!(stored.password_hash.verify("correcthorsebattery"));
    assert!(!stored.password_hash.verify("wrong password"));
    assert!(stored.audit.is_some());
}

#[test]
fn test_second_registration_of_same_handle_conflicts() {
    let mut service = UserApplicationService::new(InMemoryUserRepository::new());
    let first = service.create(cmd("alice_01", "correcthorsebattery", "Alice@Test.com"));
    assert!(first.is_ok());
    let second = service.create(cmd("alice_01", "correcthorsebattery", "Alice@Test.com"));
    assert!(matches!(second, Err(RegistrationError::Conflict)));
}

/// A store that must never be reached.
struct UntouchableStore;

impl UserRepositories for UntouchableStore {
    fn accounts(&self) -> vstd::map::Map<vstd::seq::Seq<char>, User> {
        unreachable!()
    }

    fn create(&mut self, _user: User) -> Result<UserId, StoreError> {
        panic!("the store must not be called");
    }

    fn find_by_id(&self, _username: &Username) -> Option<User> {
        panic!("the store must not be called");
    }
}

#[test]
fn test_short_secret_fails_before_any_store_interaction() {
    let mut service = UserApplicationService::new(UntouchableStore);
    let result = service.create(cmd("alice_01", "short", "alice@test.com"));
    assert!(matches!(
        result,
        Err(RegistrationError::Credential(PasswordError::TooShort))
    ));
}

#[test]
fn test_invalid_handle_fails_before_any_store_interaction() {
    let mut service = UserApplicationService::new(UntouchableStore);
    let result = service.create(cmd("a!", "correcthorsebattery", "alice@test.com"));
    assert!(matches!(
        result,
        Err(RegistrationError::Identity(UserNameError::TooShort))
    ));
    let result = service.create(cmd("bad handle", "correcthorsebattery", "alice@test.com"));
    assert!(matches!(
        result,
        Err(RegistrationError::Identity(UserNameError::InvalidCharacters))
    ));
}

#[test]
fn test_invalid_contact_fails_before_any_store_interaction() {
    let mut service = UserApplicationService::new(UntouchableStore);
    let result = service.create(cmd("alice_01", "correcthorsebattery", "no-at-sign"));
    assert!(matches!(
        result,
        Err(RegistrationError::Contact(EmailError::InvalidFormat))
    ));
    let long = "a".repeat(255) + "@test.com";
    let result = service.create(cmd("alice_01", "correcthorsebattery", &long));
    assert!(matches!(
        result,
        Err(RegistrationError::Contact(EmailError::TooLong))
    ));
}

#[test]
fn test_handle_is_trimmed_before_registration() {
    let mut service = UserApplicationService::new(InMemoryUserRepository::new());
    service
        .create(cmd("  bob-7  ", "longenoughsecret", "Bob@Example.org"))
        .unwrap();
    let handle = Username::new("bob-7").unwrap();
    let stored = service.user_repo.find_by_id(&handle).unwrap();
    assert_eq!(stored.username.as_str(), "bob-7");
    assert_eq!(stored.email_address.as_str(), "bob@example.org");
}

#[test]
fn test_store_rejects_duplicate_handle() {
    let mut store = InMemoryUserRepository::new();
    let mut service = UserApplicationService::new(InMemoryUserRepository::new());
    service
        .create(cmd("carol", "longenoughsecret", "carol@example.org"))
        .unwrap();
    let user = service
        .user_repo
        .find_by_id(&Username::new("carol").unwrap())
        .unwrap();
    assert!(store.create(user.clone()).is_ok());
    let again = store.create(user);
    assert!(matches!(again, Err(StoreError::DuplicateUsername)));
}

#[test]
fn test_find_by_id_of_absent_handle() {
    let store = InMemoryUserRepository::new();
    let handle = Username::new("nobody").unwrap();
    assert!(store.find_by_id(&handle).is_none());
}

#[test]
fn test_record_round_trip() {
    let mut service = UserApplicationService::new(InMemoryUserRepository::new());
    service
        .create(cmd("dave_9", "longenoughsecret", "Dave@Example.org"))
        .unwrap();
    let user = service
        .user_repo
        .find_by_id(&Username::new("dave_9").unwrap())
        .unwrap();
    let record = UserModel::from_user(&user);
    assert_eq!(record.username, "dave_9");
    assert_eq!(record.email, "dave@example.org");
    let back = record.to_user().unwrap();
    assert_eq!(back.id, user.id);
    assert_eq!(back.username.as_str(), "dave_9");
    assert_eq!(back.email_address.as_str(), "dave@example.org");
    assert!(back.password_hash.verify("longenoughsecret"));
    assert!(back.audit.is_none());
}

#[test]
fn test_corrupt_record_is_reported_not_panicked_on() {
    let record = UserModel::new(
        "not-an-identifier".to_string(),
        "dave_9".to_string(),
        "$argon2id$...".to_string(),
        "dave@example.org".to_string(),
    );
    assert!(matches!(record.to_user(), Err(ModelError::CorruptRecord)));

    let record = UserModel::new(
        "550e8400-e29b-41d4-a716-446655440000".to_string(),
        "x".to_string(), // too short to be a stored handle
        "$argon2id$...".to_string(),
        "dave@example.org".to_string(),
    );
    assert!(matches!(record.to_user(), Err(ModelError::CorruptRecord)));

    let record = UserModel::new(
        "550e8400-e29b-41d4-a716-446655440000".to_string(),
        "dave_9".to_string(),
        "$argon2id$...".to_string(),
        "no-at-sign".to_string(),
    );
    assert!(matches!(record.to_user(), Err(ModelError::CorruptRecord)));
}

#[test]
fn test_user_model_new_keeps_columns() {
    let record = UserModel::new(
        "id".to_string(),
        "name".to_string(),
        "hash".to_string(),
        "mail".to_string(),
    );
    assert_eq!(record.id, "id");
    assert_eq!(record.username, "name");
    assert_eq!(record.password, "hash");
    assert_eq!(record.email, "mail");
}

#[test]
fn test_config_defaults() {
    assert_eq!(user_service::config::default_max_connection(), 50);
    assert_eq!(user_service::config::default_min_connection(), 5);
}
