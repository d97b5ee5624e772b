//! Newsletter subscriptions: validated subscriber identity and the
//! registration workflow that persists a subscriber and sends the
//! confirmation email.

pub mod domain;
pub mod routes;
pub mod repository;
