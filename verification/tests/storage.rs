use culinary::error::Error;
use culinary::credential::verify_password;
use culinary::http::{CreateUserRequest, CreateUserResponse, GetUserRequest, GetUserResponse};
use culinary::storage::{
    authenticate, created, grant, register, validate, InsertOutcome, LookupOutcome, User,
};

const RECORD_OF_PASSWORD: &str =
    "$argon2id$v=19$m=256,t=2,p=1$c29tZXNhbHQ$nf65EOgLrQMR/uIPnA4rEsF5h7TKyQwu9U1bMCHGi/4";

fn stored(user_id: &str, email: &str, password_hash: &str) -> User {
    User {
        user_id: user_id.to_string(),
        email: email.to_string(),
        password_hash: password_hash.to_string(),
    }
}

#[test]
fn validate_accepts_two_filled_fields() {
    let req = CreateUserRequest::new("a@example.com".to_string(), "secret123".to_string());
    assert_eq!(validate(&req), Ok(()));
    let short = CreateUserRequest::new("a".to_string(), " ".to_string());
    assert_eq!(validate(&short), Ok(()));
}

#[test]
fn validate_rejects_an_empty_email() {
    let req = CreateUserRequest::new(String::new(), "secret123".to_string());
    assert_eq!(validate(&req), Err(Error::InvalidInput));
}

#[test]
fn validate_rejects_an_empty_password() {
    let req = CreateUserRequest::new("a@example.com".to_string(), String::new());
    assert_eq!(validate(&req), Err(Error::InvalidInput));
    let both = CreateUserRequest::new(String::new(), String::new());
    assert_eq!(validate(&both), Err(Error::InvalidInput));
}

#[test]
fn register_rejects_empty_fields() {
    let no_email = CreateUserRequest::new(String::new(), "secret123".to_string());
    assert_eq!(register(no_email), Err(Error::InvalidInput));
    let no_password = CreateUserRequest::new("a@example.com".to_string(), String::new());
    assert_eq!(register(no_password), Err(Error::InvalidInput));
}

#[test]
fn register_keeps_the_email_and_hashes_the_password() {
    let req = CreateUserRequest::new("a@example.com".to_string(), "secret123".to_string());
    let registration = register(req).unwrap();
    assert_eq!(registration.email, "a@example.com");
    assert_ne!(registration.password_hash, "secret123");
    assert!(registration.password_hash.starts_with("$argon2id$"));
    assert_eq!(
        verify_password("secret123".to_string(), registration.password_hash.clone()),
        Ok(true)
    );
    assert_eq!(
        verify_password("wrong".to_string(), registration.password_hash),
        Ok(false)
    );
}

#[test]
fn created_replies_to_each_outcome() {
    assert_eq!(
        created(
            "a@example.com".to_string(),
            InsertOutcome::Inserted {
                user_id: "7".to_string()
            }
        ),
        Ok(CreateUserResponse {
            user_id: "7".to_string(),
            email: "a@example.com".to_string()
        })
    );
    assert_eq!(
        created("a@example.com".to_string(), InsertOutcome::Duplicate),
        Err(Error::EmailAlreadyExists)
    );
    assert_eq!(
        created("a@example.com".to_string(), InsertOutcome::Failed),
        Err(Error::StorageFailure)
    );
}

#[test]
fn grant_replies_to_each_check() {
    assert_eq!(
        grant("7".to_string(), "a@example.com".to_string(), Ok(true)),
        Ok(GetUserResponse {
            user_id: "7".to_string(),
            email: "a@example.com".to_string()
        })
    );
    assert_eq!(
        grant("7".to_string(), "a@example.com".to_string(), Ok(false)),
        Err(Error::InvalidCredentials)
    );
    assert_eq!(
        grant(
            "7".to_string(),
            "a@example.com".to_string(),
            Err(Error::InvalidHashFormat)
        ),
        Err(Error::InvalidHashFormat)
    );
}

#[test]
fn authenticate_without_a_row_is_not_found() {
    let req = GetUserRequest::new("a@example.com".to_string(), "password".to_string());
    assert_eq!(
        authenticate(req, LookupOutcome::Absent),
        Err(Error::NotFound)
    );
}

#[test]
fn authenticate_after_a_failed_lookup_is_a_storage_failure() {
    let req = GetUserRequest::new("a@example.com".to_string(), "password".to_string());
    assert_eq!(
        authenticate(req, LookupOutcome::Failed),
        Err(Error::StorageFailure)
    );
}

#[test]
fn authenticate_with_the_right_password_returns_the_user() {
    let req = GetUserRequest::new("a@example.com".to_string(), "password".to_string());
    let found = LookupOutcome::Found(stored("42", "a@example.com", RECORD_OF_PASSWORD));
    assert_eq!(
        authenticate(req, found),
        Ok(GetUserResponse {
            user_id: "42".to_string(),
            email: "a@example.com".to_string()
        })
    );
}

#[test]
fn authenticate_with_a_wrong_password_is_invalid_credentials() {
    let req = GetUserRequest::new("a@example.com".to_string(), "sassword".to_string());
    let found = LookupOutcome::Found(stored("42", "a@example.com", RECORD_OF_PASSWORD));
    assert_eq!(authenticate(req, found), Err(Error::InvalidCredentials));
}

#[test]
fn authenticate_with_a_broken_record_is_invalid_hash_format() {
    let req = GetUserRequest::new("a@example.com".to_string(), "password".to_string());
    let found = LookupOutcome::Found(stored("42", "a@example.com", "password"));
    assert_eq!(authenticate(req, found), Err(Error::InvalidHashFormat));
}

#[test]
fn copy_of_a_user_equals_the_user() {
    let user = stored("42", "a@example.com", RECORD_OF_PASSWORD);
    assert_eq!(user.clone(), user);
}
