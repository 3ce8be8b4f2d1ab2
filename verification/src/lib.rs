//! Request handling for a small backend over two kinds of records, posts and
//! users, kept in a data store that the caller reaches.
//!
//! Every endpoint is split where it meets the store: one function says what
//! is asked of the store, another turns the store's answer into the HTTP
//! response. Nothing here performs I/O.

pub mod http;
pub mod post;
pub mod store;
pub mod password;
pub mod user;
pub mod model;
pub mod probe;
