use racha::auth::{
    hash_password, lanes, login_session, logout_session, verify_password, AuthUser,
    CredentialError, Session, SessionError, LANES_LIMIT, LANES_PARAM, LOGIN_PATH, USER_ID_KEY,
};
use racha::models::user::User;
use racha::models::StoreError;
use racha::response::{Refusal, StatusCode};
use racha::routes::auth::{
    login_finish, login_page, login_submit, login_verified, logout, register_created,
    register_finish, register_hashed, register_page, register_submit, validate_registration,
    LoginForm, RegisterForm, MIN_PASSWORD_CHARS, MIN_USERNAME_CHARS,
};
use racha::templates::auth::{LoginTemplate, RegisterTemplate};

fn register_form(username: &str, email: &str, password: &str) -> RegisterForm {
    RegisterForm {
        username: username.to_string(),
        email: email.to_string(),
        password: password.to_string(),
    }
}

fn login_form(username: &str, password: &str) -> LoginForm {
    LoginForm { username: username.to_string(), password: password.to_string() }
}

fn stored_user(id: i64, username: &str, email: &str, password: &str) -> User {
    User {
        id,
        username: username.to_string(),
        email: email.to_string(),
        password_hash: hash_password(password).expect("a hash"),
        created_at: 1_700_000_000,
    }
}

#[test]
fn hash_is_a_phc_string_that_verifies() {
    let hash = hash_password("password123").expect("a hash");
    assert!(hash.starts_with("$argon2"));
    assert_ne!(hash, "password123");
    assert_eq!(verify_password("password123", &hash), Ok(true));
}

#[test]
fn wrong_password_does_not_verify() {
    let hash = hash_password("password123").expect("a hash");
    assert_eq!(verify_password("wrongpassword", &hash), Ok(false));
    assert_eq!(verify_password("", &hash), Ok(false));
    assert_eq!(verify_password("password1234", &hash), Ok(false));
}

#[test]
fn hashes_of_one_password_differ_by_their_salt() {
    let a = hash_password("password123").expect("a hash");
    let b = hash_password("password123").expect("a hash");
    assert_ne!(a, b);
    assert_eq!(verify_password("password123", &a), Ok(true));
    assert_eq!(verify_password("password123", &b), Ok(true));
}

#[test]
fn hash_with_a_degree_of_parallelism_beyond_the_verifier_matches_nothing() {
    let huge = "$argon2id$v=19$m=4294967295,t=1,p=536870912$c29tZXNhbHQ$AAAAAAAAAAAAAAAA";
    assert_eq!(verify_password("password", huge), Ok(false));
    assert_eq!(verify_password("", huge), Ok(false));
    let more = "$argon2id$v=19$m=4294967295,t=1,p=4294967295$c29tZXNhbHQ$AAAAAAAAAAAAAAAA";
    assert_eq!(verify_password("password", more), Ok(false));
    let twice = "$argon2id$v=19$m=64,t=1,p=1,p=536870912$c29tZXNhbHQ$AAAAAAAAAAAAAAAA";
    assert_eq!(verify_password("password", twice), Ok(false));
    let below = "$argon2id$v=19$m=4294967295,t=1,p=536870911$c29tZXNhbHQ$AAAAAAAAAAAAAAAA";
    assert_eq!(verify_password("password", below), Ok(false));
}

#[test]
fn lanes_are_read_from_the_last_parameter_named_p() {
    let pair = |name: &str, value: Option<u32>| (name.to_string(), value);
    assert_eq!(lanes(&vec![]), None);
    assert_eq!(lanes(&vec![pair("m", Some(64)), pair("t", Some(2))]), None);
    assert_eq!(lanes(&vec![pair("m", Some(64)), pair("p", Some(4)), pair("t", Some(2))]), Some(4));
    assert_eq!(lanes(&vec![pair("p", Some(1)), pair("p", Some(9))]), Some(9));
    assert_eq!(lanes(&vec![pair("p", Some(9)), pair("p", None)]), None);
    assert_eq!(lanes(&vec![pair("P", Some(9)), pair("pp", Some(8))]), None);
    assert_eq!(LANES_LIMIT, 536_870_912);
    assert_eq!(LANES_PARAM, "p");
}

#[test]
fn a_repeated_parameter_counts_as_the_verifier_reads_it() {
    let known = "$argon2i$v=19$m=256,t=2,p=536870912,p=1$c29tZXNhbHQ$iekCn0Y3spW+sCcFanM2xBT63UP2sghkUoHLIUpWRS8";
    assert_eq!(verify_password("password", known), Ok(true));
    assert_eq!(verify_password("passwore", known), Ok(false));
}

#[test]
fn malformed_hash_is_an_error_not_a_mismatch() {
    assert_eq!(verify_password("password123", ""), Err(CredentialError::MalformedHash));
    assert_eq!(verify_password("password123", "password123"), Err(CredentialError::MalformedHash));
    assert_eq!(verify_password("password123", "$argon2id$"), Err(CredentialError::MalformedHash));
}

#[test]
fn known_hash_verifies_its_password_only() {
    let hash = "$argon2i$v=19$m=256,t=2,p=1$c29tZXNhbHQ$iekCn0Y3spW+sCcFanM2xBT63UP2sghkUoHLIUpWRS8";
    assert_eq!(verify_password("password", hash), Ok(true));
    assert_eq!(verify_password("passwore", hash), Ok(false));
    let other = "$argon2i$v=19$m=65536,t=2,p=1$c29tZXNhbHQ$8iIuixkI73Js3G1uMbezQXD0b8LG4SXGsOwoQkdAQIM";
    assert_eq!(verify_password("password", other), Ok(false));
}

#[test]
fn session_starts_anonymous_and_login_authenticates() {
    let mut session = Session::from_lookup(None);
    assert_eq!(session, Session::Anonymous);
    login_session(&mut session, 7);
    assert_eq!(session, Session::Authenticated(7));
    login_session(&mut session, 8);
    assert_eq!(session, Session::Authenticated(8));
    logout_session(&mut session);
    assert_eq!(session, Session::Anonymous);
    logout_session(&mut session);
    assert_eq!(session, Session::Anonymous);
}

#[test]
fn session_lookup_decides_the_state() {
    assert_eq!(Session::from_lookup(None), Session::Anonymous);
    assert_eq!(Session::from_lookup(Some(Err(SessionError))), Session::Anonymous);
    assert_eq!(Session::from_lookup(Some(Ok(None))), Session::Anonymous);
    assert_eq!(Session::from_lookup(Some(Ok(Some(42)))), Session::Authenticated(42));
    assert_eq!(USER_ID_KEY, "user_id");
}

#[test]
fn unauthenticated_dashboard_redirects_to_login() {
    let rejected = AuthUser::from_request_parts(&Session::Anonymous).expect_err("a redirect");
    assert_eq!(rejected.location, "/login");
    assert_eq!(rejected.location, LOGIN_PATH);
    assert_eq!(rejected.status(), StatusCode::SeeOther);
    assert_eq!(rejected.status().as_u16(), 303);
}

#[test]
fn session_store_failure_redirects_to_login() {
    let session = Session::from_lookup(Some(Err(SessionError)));
    let rejected = AuthUser::from_request_parts(&session).expect_err("a redirect");
    assert_eq!(rejected.location, "/login");
}

#[test]
fn authenticated_request_carries_the_user_id() {
    let user = AuthUser::from_request_parts(&Session::Authenticated(5)).ok().expect("a user");
    assert_eq!(user, AuthUser { id: 5 });
}

#[test]
fn login_page_returns_200() {
    let page = login_page();
    assert_eq!(page.error, None);
    assert_eq!(page.flash_message, None);
    assert!(!page.flash_is_error);
}

#[test]
fn register_page_returns_200() {
    let page = register_page();
    assert_eq!(page.error, None);
    assert_eq!(page.flash_message, None);
    assert!(!page.flash_is_error);
}

#[test]
fn with_error_sets_only_the_error() {
    let login = LoginTemplate::with_error("Invalid username or password");
    assert_eq!(login.error.as_deref(), Some("Invalid username or password"));
    assert_eq!(login.flash_message, None);
    assert!(!login.flash_is_error);
    let register = RegisterTemplate::with_error("");
    assert_eq!(register.error.as_deref(), Some(""));
    assert_eq!(register.flash_message, None);
    assert!(!register.flash_is_error);
}

#[test]
fn register_success_redirects_to_dashboard() {
    let form = register_form("alice", "alice@test.com", "password123");
    let user = register_submit(&form).ok().expect("a user to store");
    assert_eq!(user.username, "alice");
    assert_eq!(user.email, "alice@test.com");
    assert_eq!(verify_password("password123", &user.password_hash), Ok(true));
    let id = register_created(Ok(1)).ok().expect("the id");
    assert_eq!(id, 1);
    let mut session = Session::Anonymous;
    login_session(&mut session, id);
    let to = register_finish(Ok(())).ok().expect("a redirect");
    assert_eq!(to.location, "/");
    assert_eq!(AuthUser::from_request_parts(&session).ok(), Some(AuthUser { id: 1 }));
}

#[test]
fn register_short_username_shows_error() {
    let form = register_form("ab", "ab@test.com", "password123");
    let page = register_submit(&form).err().expect("the form again");
    assert!(page.error.as_deref().unwrap().contains("at least 3 characters"));
    assert_eq!(page.error.as_deref(), Some("Username must be at least 3 characters"));
    assert_eq!(page.flash_message, None);
    assert!(!page.flash_is_error);
}

#[test]
fn register_short_password_shows_error() {
    let form = register_form("alice", "alice@test.com", "short");
    let page = register_submit(&form).err().expect("the form again");
    assert!(page.error.as_deref().unwrap().contains("at least 8 characters"));
    assert_eq!(page.error.as_deref(), Some("Password must be at least 8 characters"));
}

#[test]
fn short_username_is_reported_before_short_password() {
    let form = register_form("", "x@test.com", "");
    let page = validate_registration(&form).err().expect("the form again");
    assert_eq!(page.error.as_deref(), Some("Username must be at least 3 characters"));
}

#[test]
fn registration_lengths_at_the_limits() {
    assert_eq!(MIN_USERNAME_CHARS, 3);
    assert_eq!(MIN_PASSWORD_CHARS, 8);
    assert!(validate_registration(&register_form("abc", "", "12345678")).is_ok());
    assert!(validate_registration(&register_form("ab", "", "12345678")).is_err());
    assert!(validate_registration(&register_form("abc", "", "1234567")).is_err());
}

#[test]
fn registration_lengths_count_characters() {
    assert!(validate_registration(&register_form("\u{e9}\u{e9}", "", "password123")).is_err());
    assert!(validate_registration(&register_form("\u{e9}\u{e9}\u{e9}", "", "password123")).is_ok());
    assert!(validate_registration(&register_form("abc", "", "\u{e9}\u{e9}\u{e9}\u{e9}")).is_err());
}

#[test]
fn register_hashing_failure_shows_internal_error() {
    let form = register_form("alice", "alice@test.com", "password123");
    let page = register_hashed(&form, Err(CredentialError::Hashing)).err().expect("the form");
    assert_eq!(page.error.as_deref(), Some("Internal error"));
    let user = register_hashed(&form, Ok("hash".to_string())).ok().expect("a user");
    assert_eq!(user.username, "alice");
    assert_eq!(user.email, "alice@test.com");
    assert_eq!(user.password_hash, "hash");
}

#[test]
fn register_duplicate_username_shows_error() {
    let refused = register_created(Err(StoreError::Conflict)).err().expect("a refusal");
    let Refusal::Form(page) = refused else { panic!("the form again") };
    assert!(page.error.as_deref().unwrap().contains("already taken"));
    assert_eq!(page.error.as_deref(), Some("Username or email already taken"));
    assert_eq!(page.flash_message, None);
    assert!(!page.flash_is_error);
}

#[test]
fn register_storage_failure_returns_500() {
    assert_eq!(
        register_created(Err(StoreError::Failed)),
        Err(Refusal::Status(StatusCode::InternalServerError))
    );
    assert_eq!(register_created(Ok(12)), Ok(12));
}

#[test]
fn register_session_failure_shows_session_error() {
    let page = register_finish(Err(SessionError)).err().expect("the form again");
    assert_eq!(page.error.as_deref(), Some("Session error"));
}

#[test]
fn login_success_redirects_to_dashboard() {
    let alice = stored_user(1, "alice", "alice@test.com", "password123");
    let id = login_submit(&Ok(Some(alice)), &login_form("alice", "password123"))
        .ok()
        .expect("the id");
    assert_eq!(id, 1);
    let to = login_finish(Ok(())).ok().expect("a redirect");
    assert_eq!(to.location, "/");
    assert_eq!(to.status().as_u16(), 303);
}

#[test]
fn login_wrong_password_shows_error() {
    let alice = stored_user(1, "alice", "alice@test.com", "password123");
    let refused = login_submit(&Ok(Some(alice)), &login_form("alice", "wrongpassword"));
    assert_eq!(
        refused,
        Err(Refusal::Form(LoginTemplate::with_error("Invalid username or password")))
    );
}

#[test]
fn login_nonexistent_user_shows_error() {
    let refused = login_submit(&Ok(None), &login_form("nobody", "password123"));
    assert_eq!(
        refused,
        Err(Refusal::Form(LoginTemplate::with_error("Invalid username or password")))
    );
}

#[test]
fn login_storage_failure_returns_500() {
    for failure in [StoreError::Failed, StoreError::Conflict] {
        let refused = login_submit(&Err(failure), &login_form("alice", "password123"));
        assert_eq!(refused, Err(Refusal::Status(StatusCode::InternalServerError)));
    }
}

#[test]
fn login_with_malformed_stored_hash_shows_internal_error() {
    let mut alice = stored_user(1, "alice", "alice@test.com", "password123");
    alice.password_hash = "not a hash".to_string();
    let refused = login_submit(&Ok(Some(alice)), &login_form("alice", "password123"));
    assert_eq!(refused, Err(Refusal::Form(LoginTemplate::with_error("Internal error"))));
}

#[test]
fn login_verified_maps_each_outcome() {
    assert_eq!(login_verified(9, Ok(true)).ok(), Some(9));
    assert_eq!(
        login_verified(9, Ok(false)).err().unwrap().error.as_deref(),
        Some("Invalid username or password")
    );
    assert_eq!(
        login_verified(9, Err(CredentialError::MalformedHash)).err().unwrap().error.as_deref(),
        Some("Internal error")
    );
}

#[test]
fn login_session_failure_shows_session_error() {
    let page = login_finish(Err(SessionError)).err().expect("the form again");
    assert_eq!(page.error.as_deref(), Some("Session error"));
}

#[test]
fn logout_clears_session() {
    let mut session = Session::Authenticated(1);
    let to = logout(&mut session);
    assert_eq!(to.location, "/login");
    assert_eq!(session, Session::Anonymous);
    let rejected = AuthUser::from_request_parts(&session).expect_err("a redirect");
    assert_eq!(rejected.location, "/login");
    let again = logout(&mut session);
    assert_eq!(again.location, "/login");
    assert_eq!(session, Session::Anonymous);
}
