//! The login and registration pages.

use vstd::prelude::*;
use vstd::string::*;
use crate::text::opt_text;

verus! {

/// What a form page shows besides its fields.
pub struct FormPageView {
    pub error: Option<Seq<char>>,
    pub flash_message: Option<Seq<char>>,
    pub flash_is_error: bool,
}

impl FormPageView {
    /// A form that shows nothing but its fields.
    pub open spec fn blank() -> FormPageView {
        FormPageView { error: None, flash_message: None, flash_is_error: false }
    }

    /// A form that shows `msg` as its error.
    pub open spec fn error(msg: Seq<char>) -> FormPageView {
        FormPageView { error: Some(msg), flash_message: None, flash_is_error: false }
    }
}

/// The login form, with the error of the last attempt if there was one.
#[derive(Clone, Debug, PartialEq, Eq)]
pub struct LoginTemplate {
    pub error: Option<String>,
    pub flash_message: Option<String>,
    pub flash_is_error: bool,
}

impl View for LoginTemplate {
    type V = FormPageView;

    open spec fn view(&self) -> FormPageView {
        FormPageView {
            error: opt_text(self.error),
            flash_message: opt_text(self.flash_message),
            flash_is_error: self.flash_is_error,
        }
    }
}

impl LoginTemplate {
    /// The login form showing `msg` as its error and no flash message.
    pub fn with_error(msg: &str) -> (page: Self)
        ensures
            page@ == FormPageView::error(msg@),
    {
        LoginTemplate { error: Some(msg.to_owned()), flash_message: None, flash_is_error: false }
    }
}

/// The registration form, with the error of the last attempt if there was one.
#[derive(Clone, Debug, PartialEq, Eq)]
pub struct RegisterTemplate {
    pub error: Option<String>,
    pub flash_message: Option<String>,
    pub flash_is_error: bool,
}

impl View for RegisterTemplate {
    type V = FormPageView;

    open spec fn view(&self) -> FormPageView {
        FormPageView {
            error: opt_text(self.error),
            flash_message: opt_text(self.flash_message),
            flash_is_error: self.flash_is_error,
        }
    }
}

impl RegisterTemplate {
    /// The registration form showing `msg` as its error and no flash message.
    pub fn with_error(msg: &str) -> (page: Self)
        ensures
            page@ == FormPageView::error(msg@),
    {
        RegisterTemplate { error: Some(msg.to_owned()), flash_message: None, flash_is_error: false }
    }
}

} // verus!
