//! An in-memory store of user records and the request handling around it:
//! lookup, creation, replacement and deletion, each with a stated outcome.
pub mod handlers;
pub mod ids;
pub mod store;
pub mod user;
