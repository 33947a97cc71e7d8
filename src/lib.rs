//! Persistence error handling for a user-profile service: classification of
//! SQLite driver failures, the service-level error taxonomy, the error body
//! sent to clients, and the User record with its data-access results.

pub mod response;
pub mod service_errors;
pub mod sqlite_errors;
pub mod user_dal;
