use culinary::credential::verify_password;
use culinary::error::Error;
use culinary::http::{CreateUserRequest, CreateUserResponse, GetUserRequest, GetUserResponse};
use culinary::memory::MemoryUserStorage;
use culinary::storage::{InsertOutcome, LookupOutcome, Registration, User, UserStorage};

fn create(email: &str, password: &str) -> CreateUserRequest {
    CreateUserRequest::new(email.to_string(), password.to_string())
}

fn login(email: &str, password: &str) -> GetUserRequest {
    GetUserRequest::new(email.to_string(), password.to_string())
}

fn registration(email: &str, password_hash: &str) -> Registration {
    Registration {
        email: email.to_string(),
        password_hash: password_hash.to_string(),
    }
}

#[test]
fn new_store_is_empty() {
    let store = MemoryUserStorage::new();
    assert_eq!(store.len(), 0);
    assert_eq!(
        store.select(&"a@example.com".to_string()),
        LookupOutcome::Absent
    );
    assert_eq!(
        store.get_user(login("a@example.com", "secret123")),
        Err(Error::NotFound)
    );
}

#[test]
fn create_then_get_then_wrong_password() {
    let mut store = MemoryUserStorage::new();
    assert_eq!(
        store.create_user(create("a@example.com", "secret123")),
        Ok(CreateUserResponse {
            user_id: "1".to_string(),
            email: "a@example.com".to_string()
        })
    );
    assert_eq!(
        store.get_user(login("a@example.com", "secret123")),
        Ok(GetUserResponse {
            user_id: "1".to_string(),
            email: "a@example.com".to_string()
        })
    );
    assert_eq!(
        store.get_user(login("a@example.com", "wrong")),
        Err(Error::InvalidCredentials)
    );
}

#[test]
fn get_returns_the_same_user_every_time() {
    let mut store = MemoryUserStorage::new();
    store.create_user(create("first@example.com", "one")).unwrap();
    let created = store.create_user(create("a@example.com", "secret123")).unwrap();
    assert_eq!(created.user_id, "2");
    let first = store.get_user(login("a@example.com", "secret123")).unwrap();
    store.create_user(create("later@example.com", "three")).unwrap();
    let second = store.get_user(login("a@example.com", "secret123")).unwrap();
    assert_eq!(first, second);
    assert_eq!(first.user_id, created.user_id);
    assert_eq!(first.email, "a@example.com");
}

#[test]
fn create_with_a_taken_email_changes_nothing() {
    let mut store = MemoryUserStorage::new();
    store.create_user(create("a@example.com", "secret123")).unwrap();
    assert_eq!(store.len(), 1);
    assert_eq!(
        store.create_user(create("a@example.com", "other")),
        Err(Error::EmailAlreadyExists)
    );
    assert_eq!(store.len(), 1);
    assert_eq!(
        store.get_user(login("a@example.com", "other")),
        Err(Error::InvalidCredentials)
    );
    assert!(store.get_user(login("a@example.com", "secret123")).is_ok());
}

#[test]
fn unknown_email_and_wrong_password_look_alike() {
    let mut store = MemoryUserStorage::new();
    store.create_user(create("a@example.com", "secret123")).unwrap();
    let wrong_password = store.get_user(login("a@example.com", "wrong")).unwrap_err();
    let unknown_email = store.get_user(login("b@example.com", "secret123")).unwrap_err();
    assert_eq!(wrong_password, Error::InvalidCredentials);
    assert_eq!(unknown_email, Error::NotFound);
    assert!(wrong_password.is_login_failure());
    assert!(unknown_email.is_login_failure());
    assert_eq!(wrong_password.rejection(), unknown_email.rejection());
    assert_eq!(wrong_password.message(), unknown_email.message());
    assert!(!unknown_email.message().contains("b@example.com"));
}

#[test]
fn of_several_creations_under_one_email_one_succeeds() {
    let mut store = MemoryUserStorage::new();
    let mut successes = 0;
    let mut conflicts = 0;
    for caller in 0..4 {
        let password = format!("password{}", caller);
        match store.create_user(create("a@example.com", &password)) {
            Ok(response) => {
                successes += 1;
                assert_eq!(response.user_id, "1");
            }
            Err(e) => {
                assert_eq!(e, Error::EmailAlreadyExists);
                conflicts += 1;
            }
        }
    }
    assert_eq!(successes, 1);
    assert_eq!(conflicts, 3);
    assert_eq!(store.len(), 1);
    assert!(store.get_user(login("a@example.com", "password0")).is_ok());
}

#[test]
fn create_rejects_empty_fields_and_stores_nothing() {
    let mut store = MemoryUserStorage::new();
    assert_eq!(
        store.create_user(create("", "secret123")),
        Err(Error::InvalidInput)
    );
    assert_eq!(
        store.create_user(create("a@example.com", "")),
        Err(Error::InvalidInput)
    );
    assert_eq!(store.create_user(create("", "")), Err(Error::InvalidInput));
    assert_eq!(store.len(), 0);
}

#[test]
fn emails_that_differ_in_case_are_two_users() {
    let mut store = MemoryUserStorage::new();
    let lower = store.create_user(create("a@example.com", "secret123")).unwrap();
    let upper = store.create_user(create("A@example.com", "secret123")).unwrap();
    assert_eq!(lower.user_id, "1");
    assert_eq!(upper.user_id, "2");
    assert_eq!(upper.email, "A@example.com");
    assert_eq!(store.len(), 2);
    assert_eq!(
        store.get_user(login("A@EXAMPLE.COM", "secret123")),
        Err(Error::NotFound)
    );
}

#[test]
fn insert_numbers_the_users_from_one() {
    let mut store = MemoryUserStorage::new();
    for n in 1..=12u32 {
        let email = format!("user{}@example.com", n);
        assert_eq!(
            store.insert(registration(&email, "record")),
            InsertOutcome::Inserted {
                user_id: n.to_string()
            }
        );
    }
    assert_eq!(store.len(), 12);
    assert_eq!(
        store.select(&"user10@example.com".to_string()),
        LookupOutcome::Found(User {
            user_id: "10".to_string(),
            email: "user10@example.com".to_string(),
            password_hash: "record".to_string()
        })
    );
}

#[test]
fn insert_refuses_a_duplicate_and_keeps_the_first_row() {
    let mut store = MemoryUserStorage::new();
    assert_eq!(
        store.insert(registration("a@example.com", "first")),
        InsertOutcome::Inserted {
            user_id: "1".to_string()
        }
    );
    assert_eq!(
        store.insert(registration("a@example.com", "second")),
        InsertOutcome::Duplicate
    );
    assert_eq!(store.len(), 1);
    assert_eq!(
        store.select(&"a@example.com".to_string()),
        LookupOutcome::Found(User {
            user_id: "1".to_string(),
            email: "a@example.com".to_string(),
            password_hash: "first".to_string()
        })
    );
    assert_eq!(
        store.insert(registration("b@example.com", "third")),
        InsertOutcome::Inserted {
            user_id: "2".to_string()
        }
    );
}

#[test]
fn stored_record_is_a_hash_and_not_the_password() {
    let mut store = MemoryUserStorage::new();
    store.create_user(create("a@example.com", "secret123")).unwrap();
    match store.select(&"a@example.com".to_string()) {
        LookupOutcome::Found(user) => {
            assert_ne!(user.password_hash, "secret123");
            assert!(!user.password_hash.contains("secret123"));
            assert_eq!(
                verify_password("secret123".to_string(), user.password_hash),
                Ok(true)
            );
        }
        other => panic!("expected a stored user, found {:?}", other),
    }
}

#[test]
fn get_with_a_broken_stored_record_is_invalid_hash_format() {
    let mut store = MemoryUserStorage::new();
    store.insert(registration("a@example.com", "no record"));
    assert_eq!(
        store.get_user(login("a@example.com", "secret123")),
        Err(Error::InvalidHashFormat)
    );
}

#[test]
fn get_with_a_stored_record_out_of_bounds_is_invalid_hash_format() {
    let mut store = MemoryUserStorage::new();
    store.insert(registration(
        "a@example.com",
        "$argon2id$v=19$m=256,t=2,p=536870912$c29tZXNhbHQ$nf65EOgLrQMR/uIPnA4rEsF5h7TKyQwu9U1bMCHGi/4",
    ));
    assert_eq!(
        store.get_user(login("a@example.com", "password")),
        Err(Error::InvalidHashFormat)
    );
}
