//! A user directory served over HTTP, with a wide-column store as the record
//! of truth and a key-value cache in front of it.
//!
//! The library holds the request logic: the data model, input validation, the
//! statements sent to the store, and a step function that decides, from what
//! the store and cache answered so far, what a request does next. A model of a
//! working store and cache states what a whole request does, and the laws of
//! the service are proved over it.
pub mod model;
pub mod ids;
pub mod validate;
pub mod statements;
pub mod handlers;
pub mod model_backend;
pub mod laws;
