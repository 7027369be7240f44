//! The profile page.

use vstd::prelude::*;
use vstd::string::*;
use crate::auth::AuthUser;
use crate::models::user::User;
use crate::models::StoreError;
use crate::response::StatusCode;
use crate::templates::profile::ProfileTemplate;

verus! {

/// The profile of `user`, from what the read of the user's row gave: name and
/// address of the user, both empty for a user who is not there, and
/// "internal server error" where the read failed.
pub fn profile(found: Result<Option<User>, StoreError>, _user: &AuthUser) -> (r: Result<
    ProfileTemplate,
    StatusCode,
>)
    ensures
        match found {
            Ok(Some(user)) => r matches Ok(page) && page.username == user.username && page.email
                == user.email && page.flash_message is None && !page.flash_is_error,
            Ok(None) => r matches Ok(page) && page.username@.len() == 0 && page.email@.len() == 0
                && page.flash_message is None && !page.flash_is_error,
            Err(_) => r matches Err(status) && status == StatusCode::InternalServerError,
        },
{
    match found {
        Ok(Some(user)) => Ok(
            ProfileTemplate {
                username: user.username,
                email: user.email,
                flash_message: None,
                flash_is_error: false,
            },
        ),
        Ok(None) => Ok(
            ProfileTemplate {
                username: String::new(),
                email: String::new(),
                flash_message: None,
                flash_is_error: false,
            },
        ),
        Err(_) => Err(StatusCode::InternalServerError),
    }
}

} // verus!
