//! Session identifiers, authorization helpers and the decision logic of the
//! timeout and fault-injection middleware, with their contracts.
pub mod encoding;
pub mod little_endian;
pub mod session;
pub mod timeout;
pub mod chaos;
pub mod backend;
pub mod service;
pub mod session_store;
