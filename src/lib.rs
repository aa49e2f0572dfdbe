//! Event processing core of a service that forwards reasoned and removed
//! dataset/concept graphs from a message topic to a diff store.
pub mod schemas;
pub mod error;
pub mod diff_store;
pub mod kafka;
pub mod metrics;
