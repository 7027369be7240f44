//! The decisions of the request handlers.
//!
//! A handler alternates storage or session work with decisions. The work is
//! the caller's; each function here takes what the work gave and returns what
//! to do next or what to answer.

pub mod auth;
pub mod dashboard;
pub mod groups;
pub mod profile;
pub mod tasks;
