//! View models: the values a page or fragment is rendered from.

pub mod auth;
pub mod dashboard;
pub mod groups;
pub mod profile;
pub mod tasks;
