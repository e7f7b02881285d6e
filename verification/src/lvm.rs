//! The contract service: records, store, transactions and the runner.

pub mod api;
pub mod contract;
pub mod laws;
pub mod runner;
pub mod schema;
pub mod service;
pub mod state;
pub mod transactions;

pub use schema::Schema;
pub use service::{Service, ServiceFactory};
