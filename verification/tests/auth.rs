use user_directory::auth::{
    check_password, check_registration, login, new_account, register, registration_response,
    token_response, token_secret, Conflict, LoginError, RegistrationError, Validation,
};
use user_directory::mutate::create_user_with_number;
use user_directory::retrieve::find_user_by_id;
use std::sync::Mutex;
use user_directory::types::{ApplicationState, User, UserLoginForm, UserRegistrationForm};

const SHA256_OF_P1: &str = "f64551fcd6f07823cb87971cfb91446425da18286b3ab1ef935e0cbd7a69f68a";
const SHA256_OF_EMPTY: &str = "e3b0c44298fc1c149afbf4c8996fb92427ae41e4649b934ca495991b7852b855";

fn registration(username: &str, email: &str, password: &str, again: &str) -> UserRegistrationForm {
    UserRegistrationForm {
        username: username.to_string(),
        email: email.to_string(),
        password: password.to_string(),
        password_again: again.to_string(),
    }
}

fn credentials(email: &str, password: &str) -> UserLoginForm {
    UserLoginForm { email: email.to_string(), password: password.to_string() }
}

fn stored_account(username: &str, email: &str, password_digest: &str) -> User {
    User {
        user_id: None,
        username: username.to_string(),
        email: email.to_string(),
        description: String::new(),
        password: password_digest.to_string(),
    }
}

fn directory_with_joe() -> Vec<User> {
    let mut users: Vec<User> = Vec::new();
    register(&mut users, registration("joe", "joe@x.com", "p1", "p1")).unwrap();
    users
}

#[test]
fn register_stores_hashed_account_and_returns_its_identifier() {
    let mut users: Vec<User> = Vec::new();
    let response = register(&mut users, registration("joe", "joe@x.com", "p1", "p1")).unwrap();
    let id = response.user_id;
    assert_eq!(id.len(), 9);
    assert!(id.starts_with("user:"));
    assert!(id[5..].chars().all(|c| c.is_ascii_digit()));
    let number: u32 = id[5..].parse().unwrap();
    assert!((1000..9999).contains(&number));

    assert_eq!(users.len(), 1);
    let found = find_user_by_id(&users, id.clone()).unwrap();
    assert_eq!(found.user_id, Some(id));
    assert_eq!(found.username, "joe");
    assert_eq!(found.email, "joe@x.com");
    assert_eq!(found.description, "");
    assert_eq!(found.password, SHA256_OF_P1);
}

#[test]
fn register_hashes_the_empty_password_too() {
    let mut users: Vec<User> = Vec::new();
    register(&mut users, registration("joe", "joe@x.com", "", "")).unwrap();
    assert_eq!(users[0].password, SHA256_OF_EMPTY);
}

#[test]
fn register_rejects_taken_username() {
    let mut users = directory_with_joe();
    let response = register(&mut users, registration("joe", "joe@x.com", "p1", "p1"));
    assert_eq!(response.err(), Some(RegistrationError::Conflict(Conflict::UsernameTaken)));
    assert_eq!(users.len(), 1);
}

#[test]
fn register_rejects_taken_username_with_other_email() {
    let mut users = directory_with_joe();
    let response = register(&mut users, registration("joe", "other@x.com", "p2", "p2"));
    assert_eq!(response.err(), Some(RegistrationError::Conflict(Conflict::UsernameTaken)));
    assert_eq!(users.len(), 1);
}

#[test]
fn register_rejects_taken_email_with_other_username() {
    let mut users = directory_with_joe();
    let response = register(&mut users, registration("jim", "joe@x.com", "p2", "p2"));
    assert_eq!(response.err(), Some(RegistrationError::Conflict(Conflict::EmailTaken)));
    assert_eq!(users.len(), 1);
    assert_eq!(users[0].username, "joe");
}

#[test]
fn register_rejects_password_mismatch() {
    let mut users: Vec<User> = Vec::new();
    let response = register(&mut users, registration("joe", "joe@x.com", "p1", "p2"));
    assert_eq!(response.err(), Some(RegistrationError::Validation(Validation::PasswordMismatch)));
    assert_eq!(users.len(), 0);
}

#[test]
fn register_reports_name_before_email_before_password() {
    let mut users = directory_with_joe();
    let response = register(&mut users, registration("joe", "joe@x.com", "a", "b"));
    assert_eq!(response.err(), Some(RegistrationError::Conflict(Conflict::UsernameTaken)));
    let response = register(&mut users, registration("jim", "joe@x.com", "a", "b"));
    assert_eq!(response.err(), Some(RegistrationError::Conflict(Conflict::EmailTaken)));
    let response = register(&mut users, registration("jim", "jim@x.com", "a", "b"));
    assert_eq!(response.err(), Some(RegistrationError::Validation(Validation::PasswordMismatch)));
    assert_eq!(users.len(), 1);
}

#[test]
fn register_admits_a_second_distinct_account() {
    let mut users = directory_with_joe();
    let response = register(&mut users, registration("jim", "jim@x.com", "p1", "p1"));
    assert!(response.is_ok());
    assert_eq!(users.len(), 2);
    assert_eq!(users[0].username, "joe");
    assert_eq!(users[1].username, "jim");
    assert_eq!(users[1].user_id, Some(response.unwrap().user_id));
}

#[test]
fn check_registration_names_each_fault() {
    let users = directory_with_joe();
    assert_eq!(check_registration(&users, &registration("jim", "jim@x.com", "p", "p")), Ok(()));
    assert_eq!(
        check_registration(&users, &registration("joe", "jim@x.com", "p", "p")),
        Err(RegistrationError::Conflict(Conflict::UsernameTaken))
    );
    assert_eq!(
        check_registration(&users, &registration("jim", "joe@x.com", "p", "p")),
        Err(RegistrationError::Conflict(Conflict::EmailTaken))
    );
    assert_eq!(
        check_registration(&users, &registration("jim", "jim@x.com", "p", "P")),
        Err(RegistrationError::Validation(Validation::PasswordMismatch))
    );
}

#[test]
fn new_account_has_no_identifier_and_empty_description() {
    let user = new_account(registration("joe", "joe@x.com", "p1", "p1"), "digest".to_string());
    assert_eq!(user.user_id, None);
    assert_eq!(user.username, "joe");
    assert_eq!(user.email, "joe@x.com");
    assert_eq!(user.description, "");
    assert_eq!(user.password, "digest");
}

#[test]
fn registration_response_needs_a_stored_identifier() {
    let mut user = stored_account("joe", "joe@x.com", "digest");
    assert_eq!(registration_response(None).err(), Some(RegistrationError::CreationFailed));
    assert_eq!(
        registration_response(Some(user.clone())).err(),
        Some(RegistrationError::CreationFailed)
    );
    user.user_id = Some("user:1234".to_string());
    assert_eq!(registration_response(Some(user)).unwrap().user_id, "user:1234");
}

#[test]
fn login_issues_token_for_correct_credentials() {
    let users = directory_with_joe();
    let token = login(&users, credentials("joe@x.com", "p1"), None).unwrap().token;
    assert_eq!(token.matches('.').count(), 2);
    let segments: Vec<&str> = token.split('.').collect();
    assert_eq!(segments.len(), 3);
    assert_eq!(segments[0], "eyJhbGciOiJIUzI1NiJ9");
    assert!(segments.iter().all(|s| !s.is_empty()));
}

#[test]
fn login_after_registration_accepts_password_and_rejects_another() {
    let mut users: Vec<User> = Vec::new();
    let id = register(&mut users, registration("joe", "joe@x.com", "p1", "p1")).unwrap().user_id;
    let token = login(&users, credentials("joe@x.com", "p1"), None).unwrap().token;
    let segments: Vec<&str> = token.split('.').collect();
    assert_eq!(segments.len(), 3);
    assert_eq!(segments[0], "eyJhbGciOiJIUzI1NiJ9");
    assert_eq!(id.len(), 9);
    assert_eq!(segments[1].len(), 15);
    assert_eq!(segments[2].len(), 43);
    let response = login(&users, credentials("joe@x.com", "wrong"), None);
    assert_eq!(response.err(), Some(LoginError::WrongPassword));
}

#[test]
fn login_rejects_wrong_password() {
    let users = directory_with_joe();
    let response = login(&users, credentials("joe@x.com", "wrong"), None);
    assert_eq!(response.err(), Some(LoginError::WrongPassword));
}

#[test]
fn login_rejects_unknown_email() {
    let users = directory_with_joe();
    let response = login(&users, credentials("jim@x.com", "p1"), None);
    assert_eq!(response.err(), Some(LoginError::UnknownEmail));
    let empty: Vec<User> = Vec::new();
    let response = login(&empty, credentials("joe@x.com", "p1"), Some("key".to_string()));
    assert_eq!(response.err(), Some(LoginError::UnknownEmail));
}

#[test]
fn login_does_not_accept_the_stored_digest_as_password() {
    let users = directory_with_joe();
    let response = login(&users, credentials("joe@x.com", SHA256_OF_P1), None);
    assert_eq!(response.err(), Some(LoginError::WrongPassword));
}

#[test]
fn login_signs_the_identifier_with_the_default_secret() {
    let mut users: Vec<User> = Vec::new();
    create_user_with_number(&mut users, stored_account("joe", "joe@x.com", SHA256_OF_P1), 1234);
    let token = login(&users, credentials("joe@x.com", "p1"), None).unwrap().token;
    assert_eq!(
        token,
        "eyJhbGciOiJIUzI1NiJ9.InVzZXI6MTIzNCI.nw9-B-nQ4x1vrJzGFEYBPQxwFzx4Z0jK3qBvOpZ3vRU"
    );
    let same = login(&users, credentials("joe@x.com", "p1"), Some("abc123".to_string()));
    assert_eq!(same.unwrap().token, token);
}

#[test]
fn login_signs_with_the_configured_secret() {
    let mut users: Vec<User> = Vec::new();
    create_user_with_number(&mut users, stored_account("joe", "joe@x.com", SHA256_OF_P1), 1234);
    let token =
        login(&users, credentials("joe@x.com", "p1"), Some("s3cret".to_string())).unwrap().token;
    assert_eq!(
        token,
        "eyJhbGciOiJIUzI1NiJ9.InVzZXI6MTIzNCI.-QxPEc6o6hGH5irhr48ktelRiAHB328BcTJ2DD8osUE"
    );
}

#[test]
fn login_with_different_secrets_gives_different_signatures() {
    let users = directory_with_joe();
    let first = login(&users, credentials("joe@x.com", "p1"), Some("one".to_string())).unwrap();
    let second = login(&users, credentials("joe@x.com", "p1"), Some("two".to_string())).unwrap();
    let first: Vec<&str> = first.token.split('.').collect();
    let second: Vec<&str> = second.token.split('.').collect();
    assert_eq!(first.len(), 3);
    assert_eq!(second.len(), 3);
    assert_eq!(first[0], second[0]);
    assert_eq!(first[1], second[1]);
    assert_ne!(first[2], second[2]);
}

#[test]
fn login_of_account_without_identifier_signs_null() {
    let users = vec![stored_account("joe", "joe@x.com", SHA256_OF_P1)];
    let token = login(&users, credentials("joe@x.com", "p1"), None).unwrap().token;
    assert_eq!(token, "eyJhbGciOiJIUzI1NiJ9.bnVsbA.z3VU1ESU3qJ7xFqONkYGhfob1HBS70ASTHaLF2HwlZI");
}

#[test]
fn login_uses_the_account_inserted_last_for_the_email() {
    let mut users: Vec<User> = Vec::new();
    create_user_with_number(&mut users, stored_account("old", "joe@x.com", SHA256_OF_EMPTY), 1111);
    create_user_with_number(&mut users, stored_account("new", "joe@x.com", SHA256_OF_P1), 1234);
    let response = login(&users, credentials("joe@x.com", ""), None);
    assert_eq!(response.err(), Some(LoginError::WrongPassword));
    let token = login(&users, credentials("joe@x.com", "p1"), None).unwrap().token;
    assert_eq!(
        token,
        "eyJhbGciOiJIUzI1NiJ9.InVzZXI6MTIzNCI.nw9-B-nQ4x1vrJzGFEYBPQxwFzx4Z0jK3qBvOpZ3vRU"
    );
}

#[test]
fn token_secret_falls_back_to_default() {
    assert_eq!(token_secret(None), "abc123");
    assert_eq!(token_secret(Some("configured".to_string())), "configured");
    assert_eq!(token_secret(Some(String::new())), "");
}

#[test]
fn check_password_compares_digests() {
    let user = stored_account("joe", "joe@x.com", SHA256_OF_P1);
    assert_eq!(check_password(&user, &SHA256_OF_P1.to_string()), Ok(()));
    assert_eq!(check_password(&user, &SHA256_OF_EMPTY.to_string()), Err(LoginError::WrongPassword));
    assert_eq!(check_password(&user, &"p1".to_string()), Err(LoginError::WrongPassword));
}

#[test]
fn token_response_maps_signing_failure_to_internal_error() {
    assert_eq!(token_response(Ok("a.b.c".to_string())).unwrap().token, "a.b.c");
    assert_eq!(token_response(Err(jwt::Error::Format)).err(), Some(LoginError::InternalError));
}

#[test]
fn shared_directory_is_reached_through_its_lock() {
    let state = ApplicationState { users: Mutex::new(Vec::new()) };
    let id = {
        let mut users = state.users.lock().unwrap();
        register(&mut users, registration("joe", "joe@x.com", "p1", "p1")).unwrap().user_id
    };
    {
        let users = state.users.lock().unwrap();
        assert_eq!(users.len(), 1);
        assert_eq!(find_user_by_id(&users, id).unwrap().username, "joe");
        assert!(login(&users, credentials("joe@x.com", "p1"), None).is_ok());
    }
    let mut users = state.users.lock().unwrap();
    let response = register(&mut users, registration("joe", "joe@x.com", "p1", "p1"));
    assert_eq!(response.err(), Some(RegistrationError::Conflict(Conflict::UsernameTaken)));
    assert_eq!(users.len(), 1);
}
