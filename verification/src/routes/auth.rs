//! Login, registration and logout.

use vstd::prelude::*;
use vstd::string::*;
use crate::auth::{hash_password, logout_session, password_accepted, password_check, verify_password};
use crate::auth::{CredentialError, Session, SessionError, LOGIN_PATH};
use crate::models::StoreError;
use crate::models::user::{NewUser, User};
use crate::response::{Redirect, Refusal, StatusCode};
use crate::templates::auth::{FormPageView, LoginTemplate, RegisterTemplate};

verus! {

/// Shown when a password could not be hashed or a stored hash could not be
/// read.
pub const INTERNAL_ERROR: &'static str = "Internal error";

/// Shown for an unknown user name and for a wrong password alike.
pub const INVALID_CREDENTIALS: &'static str = "Invalid username or password";

/// Shown when the user row could not be stored because the name or the
/// address is another user's.
pub const ALREADY_TAKEN: &'static str = "Username or email already taken";

/// Shown when the user id could not be stored in the session.
pub const SESSION_ERROR: &'static str = "Session error";

/// Shown for a user name of fewer than [`MIN_USERNAME_CHARS`] characters.
pub const USERNAME_TOO_SHORT: &'static str = "Username must be at least 3 characters";

/// Shown for a password of fewer than [`MIN_PASSWORD_CHARS`] characters.
pub const PASSWORD_TOO_SHORT: &'static str = "Password must be at least 8 characters";

/// The least number of characters of a user name.
pub const MIN_USERNAME_CHARS: usize = 3;

/// The least number of characters of a password.
pub const MIN_PASSWORD_CHARS: usize = 8;

/// Where a login or registration leads.
pub const HOME_PATH: &'static str = "/";

/// The fields of the login form.
#[derive(Clone, Debug, PartialEq, Eq)]
pub struct LoginForm {
    pub username: String,
    pub password: String,
}

/// The fields of the registration form.
#[derive(Clone, Debug, PartialEq, Eq)]
pub struct RegisterForm {
    pub username: String,
    pub email: String,
    pub password: String,
}

/// The empty login form.
pub fn login_page() -> (page: LoginTemplate)
    ensures
        page@ == FormPageView::blank(),
{
    LoginTemplate { error: None, flash_message: None, flash_is_error: false }
}

/// The empty registration form.
pub fn register_page() -> (page: RegisterTemplate)
    ensures
        page@ == FormPageView::blank(),
{
    RegisterTemplate { error: None, flash_message: None, flash_is_error: false }
}

/// Whom a checked password authenticates, or the error to show.
pub open spec fn password_outcome(user_id: i64, verified: Result<bool, CredentialError>) -> Result<
    i64,
    Seq<char>,
> {
    match verified {
        Err(_) => Err(INTERNAL_ERROR@),
        Ok(false) => Err(INVALID_CREDENTIALS@),
        Ok(true) => Ok(user_id),
    }
}

/// A message as the refusal that shows it on the form.
pub open spec fn or_form<T>(r: Result<T, Seq<char>>) -> Result<T, Refusal<Seq<char>>> {
    match r {
        Ok(v) => Ok(v),
        Err(msg) => Err(Refusal::Form(msg)),
    }
}

/// Whom a login attempt authenticates, or how it is refused: the user found
/// under the submitted name, if the submitted password matches the stored
/// hash. A failed lookup is an internal server error; everything else that
/// goes wrong is shown on the form.
pub open spec fn login_outcome(found: Result<Option<User>, StoreError>, password: Seq<char>) -> Result<
    i64,
    Refusal<Seq<char>>,
> {
    match found {
        Err(_) => Err(Refusal::Status(StatusCode::InternalServerError)),
        Ok(None) => Err(Refusal::Form(INVALID_CREDENTIALS@)),
        Ok(Some(user)) => or_form(
            password_outcome(user.id, password_check(password, user.password_hash@)),
        ),
    }
}

/// What storing the user row leads to: the id of the stored user, the form
/// with the message for a name or address that is taken, or an internal
/// server error for any other failure.
pub open spec fn creation_outcome(created: Result<i64, StoreError>) -> Result<i64, Refusal<Seq<char>>> {
    match created {
        Ok(id) => Ok(id),
        Err(StoreError::Conflict) => Err(Refusal::Form(ALREADY_TAKEN@)),
        Err(StoreError::Failed) => Err(Refusal::Status(StatusCode::InternalServerError)),
    }
}

/// A refusal as what it shows: the form by its view.
pub open spec fn login_answer<T>(r: Result<T, Refusal<LoginTemplate>>) -> Result<
    T,
    Refusal<FormPageView>,
> {
    match r {
        Ok(v) => Ok(v),
        Err(Refusal::Form(page)) => Err(Refusal::Form(page@)),
        Err(Refusal::Status(status)) => Err(Refusal::Status(status)),
    }
}

/// A refusal as what it shows: the form by its view.
pub open spec fn register_answer<T>(r: Result<T, Refusal<RegisterTemplate>>) -> Result<
    T,
    Refusal<FormPageView>,
> {
    match r {
        Ok(v) => Ok(v),
        Err(Refusal::Form(page)) => Err(Refusal::Form(page@)),
        Err(Refusal::Status(status)) => Err(Refusal::Status(status)),
    }
}

/// A message as the form that shows it as its error.
pub open spec fn or_error_form<T>(r: Result<T, Refusal<Seq<char>>>) -> Result<T, Refusal<FormPageView>> {
    match r {
        Ok(v) => Ok(v),
        Err(Refusal::Form(msg)) => Err(Refusal::Form(FormPageView::error(msg))),
        Err(Refusal::Status(status)) => Err(Refusal::Status(status)),
    }
}

/// A step of the login: a value to go on with, or the form to show again.
pub open spec fn login_step<T>(r: Result<T, LoginTemplate>) -> Result<T, FormPageView> {
    match r {
        Ok(v) => Ok(v),
        Err(page) => Err(page@),
    }
}

/// A step of the registration: a value to go on with, or the form to show again.
pub open spec fn register_step<T>(r: Result<T, RegisterTemplate>) -> Result<T, FormPageView> {
    match r {
        Ok(v) => Ok(v),
        Err(page) => Err(page@),
    }
}

/// An error message as the page that shows it.
pub open spec fn or_error_page<T>(r: Result<T, Seq<char>>) -> Result<T, FormPageView> {
    match r {
        Ok(v) => Ok(v),
        Err(msg) => Err(FormPageView::error(msg)),
    }
}

/// The login decision once the password of the user `user_id` has been checked.
pub fn login_verified(user_id: i64, verified: Result<bool, CredentialError>) -> (r: Result<
    i64,
    LoginTemplate,
>)
    ensures
        login_step(r) == or_error_page(password_outcome(user_id, verified)),
{
    match verified {
        Err(_) => Err(LoginTemplate::with_error(INTERNAL_ERROR)),
        Ok(false) => Err(LoginTemplate::with_error(INVALID_CREDENTIALS)),
        Ok(true) => Ok(user_id),
    }
}

/// The first step of a login. `found` is what the lookup of the submitted user
/// name gave. The answer is the id of the user to store in the session, or
/// the refusal: the login form with its error, or an internal server error
/// where the lookup failed. An unknown user and a wrong password give the
/// same message.
pub fn login_submit(found: &Result<Option<User>, StoreError>, form: &LoginForm) -> (r: Result<
    i64,
    Refusal<LoginTemplate>,
>)
    ensures
        login_answer(r) == or_error_form(login_outcome(*found, form.password@)),
{
    match found {
        Err(_) => Err(Refusal::Status(StatusCode::InternalServerError)),
        Ok(None) => Err(Refusal::Form(LoginTemplate::with_error(INVALID_CREDENTIALS))),
        Ok(Some(user)) => {
            let verified = verify_password(form.password.as_str(), user.password_hash.as_str());
            match login_verified(user.id, verified) {
                Ok(id) => Ok(id),
                Err(page) => Err(Refusal::Form(page)),
            }
        },
    }
}

/// The last step of a login: the redirect to the dashboard once the user id is
/// in the session, or the login form with the session error.
pub fn login_finish(stored: Result<(), SessionError>) -> (r: Result<Redirect, LoginTemplate>)
    ensures
        match stored {
            Ok(_) => r matches Ok(to) && to.location@ == HOME_PATH@,
            Err(_) => r matches Err(page) && page@ == FormPageView::error(SESSION_ERROR@),
        },
{
    match stored {
        Ok(_) => Ok(Redirect::to(HOME_PATH)),
        Err(_) => Err(LoginTemplate::with_error(SESSION_ERROR)),
    }
}

/// The message for a registration that is refused before anything is hashed
/// or stored: the user name is checked first, then the password.
pub open spec fn registration_error(username: Seq<char>, password: Seq<char>) -> Option<Seq<char>> {
    if username.len() < MIN_USERNAME_CHARS {
        Some(USERNAME_TOO_SHORT@)
    } else if password.len() < MIN_PASSWORD_CHARS {
        Some(PASSWORD_TOO_SHORT@)
    } else {
        None
    }
}

/// A user who is stored with the hash of a password logs in with that
/// password.
pub proof fn lemma_hashed_password_logs_in(user: User, password: Seq<char>)
    requires
        password_accepted(password, user.password_hash@),
    ensures
        login_outcome(Ok(Some(user)), password) == Ok::<i64, Refusal<Seq<char>>>(user.id),
{
}

/// A user name of fewer than three characters is refused, whatever the
/// password, and the message says "at least 3 characters".
pub proof fn lemma_short_username_refused(username: Seq<char>, password: Seq<char>)
    requires
        username.len() < 3,
    ensures
        registration_error(username, password) == Some(USERNAME_TOO_SHORT@),
        USERNAME_TOO_SHORT@.subrange(17, 38) == "at least 3 characters"@,
{
    reveal_strlit("Username must be at least 3 characters");
    reveal_strlit("at least 3 characters");
    assert(USERNAME_TOO_SHORT@.subrange(17, 38) =~= "at least 3 characters"@);
}

/// A password of fewer than eight characters is refused, and the message
/// says "at least 8 characters".
pub proof fn lemma_short_password_refused(username: Seq<char>, password: Seq<char>)
    requires
        username.len() >= 3,
        password.len() < 8,
    ensures
        registration_error(username, password) == Some(PASSWORD_TOO_SHORT@),
        PASSWORD_TOO_SHORT@.subrange(17, 38) == "at least 8 characters"@,
{
    reveal_strlit("Password must be at least 8 characters");
    reveal_strlit("at least 8 characters");
    assert(PASSWORD_TOO_SHORT@.subrange(17, 38) =~= "at least 8 characters"@);
}

/// Checks the lengths of user name and password, counted in characters.
pub fn validate_registration(form: &RegisterForm) -> (r: Result<(), RegisterTemplate>)
    ensures
        register_step(r) == match registration_error(form.username@, form.password@) {
            Some(msg) => Err::<(), FormPageView>(FormPageView::error(msg)),
            None => Ok(()),
        },
{
    if form.username.as_str().unicode_len() < MIN_USERNAME_CHARS {
        Err(RegisterTemplate::with_error(USERNAME_TOO_SHORT))
    } else if form.password.as_str().unicode_len() < MIN_PASSWORD_CHARS {
        Err(RegisterTemplate::with_error(PASSWORD_TOO_SHORT))
    } else {
        Ok(())
    }
}

/// The row to store for a valid form once its password has been hashed, or
/// the form with the internal error where hashing failed.
pub fn register_hashed(form: &RegisterForm, hashed: Result<String, CredentialError>) -> (r: Result<
    NewUser,
    RegisterTemplate,
>)
    ensures
        match hashed {
            Ok(hash) => r matches Ok(user) && user.username@ == form.username@ && user.email@
                == form.email@ && user.password_hash@ == hash@,
            Err(_) => r matches Err(page) && page@ == FormPageView::error(INTERNAL_ERROR@),
        },
{
    match hashed {
        Ok(hash) => Ok(
            NewUser {
                username: form.username.clone(),
                email: form.email.clone(),
                password_hash: hash,
            },
        ),
        Err(_) => Err(RegisterTemplate::with_error(INTERNAL_ERROR)),
    }
}

/// The first step of a registration. A form with a short user name or a short
/// password is refused with its message and nothing is to be stored. For any
/// other form the answer is the row to store, with the password hashed, unless
/// hashing failed.
pub fn register_submit(form: &RegisterForm) -> (r: Result<NewUser, RegisterTemplate>)
    ensures
        match registration_error(form.username@, form.password@) {
            Some(msg) => r matches Err(page) && page@ == FormPageView::error(msg),
            None => match r {
                Ok(user) => user.username@ == form.username@ && user.email@ == form.email@
                    && password_accepted(form.password@, user.password_hash@),
                Err(page) => page@ == FormPageView::error(INTERNAL_ERROR@),
            },
        },
{
    match validate_registration(form) {
        Err(page) => Err(page),
        Ok(_) => {
            let hashed = hash_password(form.password.as_str());
            register_hashed(form, hashed)
        },
    }
}

/// The second step of a registration: the id of the stored user, to put in the
/// session, or the refusal. A name or address that is taken is shown on the
/// form; any other failure of the storage is an internal server error.
pub fn register_created(created: Result<i64, StoreError>) -> (r: Result<
    i64,
    Refusal<RegisterTemplate>,
>)
    ensures
        register_answer(r) == or_error_form(creation_outcome(created)),
{
    match created {
        Ok(id) => Ok(id),
        Err(StoreError::Conflict) => Err(
            Refusal::Form(RegisterTemplate::with_error(ALREADY_TAKEN)),
        ),
        Err(StoreError::Failed) => Err(Refusal::Status(StatusCode::InternalServerError)),
    }
}

/// The last step of a registration: the redirect to the dashboard once the
/// user id is in the session, or the form with the session error.
pub fn register_finish(stored: Result<(), SessionError>) -> (r: Result<Redirect, RegisterTemplate>)
    ensures
        match stored {
            Ok(_) => r matches Ok(to) && to.location@ == HOME_PATH@,
            Err(_) => r matches Err(page) && page@ == FormPageView::error(SESSION_ERROR@),
        },
{
    match stored {
        Ok(_) => Ok(Redirect::to(HOME_PATH)),
        Err(_) => Err(RegisterTemplate::with_error(SESSION_ERROR)),
    }
}

/// Logout clears the session and leads to the login page, whatever the
/// session held.
pub fn logout(session: &mut Session) -> (to: Redirect)
    ensures
        *final(session) == Session::Anonymous,
        to.location@ == LOGIN_PATH@,
{
    logout_session(session);
    Redirect::to(LOGIN_PATH)
}

} // verus!
