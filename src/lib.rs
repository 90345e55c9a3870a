//! A small resource registry kept in an embedded SQL store.
//!
//! Every statement goes through a `Store`, which records what was sent.
//! The repository operations state which statements they send and how
//! they translate the store's answers into the library's own errors; the
//! rules that decide those answers (names made only of digits, the
//! unique-constraint code, empty lookups) are verified.

pub mod error;
pub mod store;
pub mod resource;
pub mod schema;
pub mod dispatch;

pub use error::{ResourceError, StoreErrorKind};
pub use resource::{create_resource, get_resource_id, get_resource_name, Cli};
pub use schema::initialse_database;
pub use store::{Store, StoreFailure};
