//! The currency ledger, as far as the contract service calls into it.

pub mod schema;
pub mod service;
pub mod wallet;

pub use schema::Schema;
pub use service::{Service, ServiceFactory};
