//! The profile page.

use vstd::prelude::*;
use vstd::string::*;

verus! {

/// The profile of the user who asks for it.
#[derive(Clone, Debug, PartialEq, Eq)]
pub struct ProfileTemplate {
    pub username: String,
    pub email: String,
    pub flash_message: Option<String>,
    pub flash_is_error: bool,
}

} // verus!
