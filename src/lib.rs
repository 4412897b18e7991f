//! Request-to-transaction logic of an HTTP gateway over an ordered,
//! transactional key-value store.
pub mod envelope;
pub mod error;
pub mod params;
pub mod range;
pub mod get;
pub mod list;
pub mod post;
pub mod laws;
