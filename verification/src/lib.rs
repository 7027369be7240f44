//! The rules of a multi-user habit tracker.
//!
//! Users register, create daily tasks, mark them as done, and form groups to
//! see each other's streaks. This library holds what is decided and computed
//! on the way: credentials and the session gate ([`auth`]), which day is
//! today for a request ([`date`]), the streak of a task ([`streak`] and
//! [`models::completion`]), the rows of the data model with what is derived
//! from them ([`models`]), and the decisions of each request handler
//! ([`routes`]) with the pages they answer with ([`templates`]).
//!
//! Storage, sessions and rendering are not done here. A caller reads rows,
//! hands them over, and writes what comes back.

pub mod auth;
pub mod config;
pub mod date;
pub mod models;
pub mod response;
pub mod routes;
pub mod streak;
pub mod templates;
pub mod text;
