//! A small CRUD service for to-do records kept in a key-value store.
//!
//! The store itself is somebody else's: every handler here is a pure decision
//! function. It is given the request and the answers that the store has given
//! so far, and says what to do next: ask the store for something, answer the
//! client, or give up with a failure.

pub mod key;
pub mod model;
pub mod protocol;
pub mod state;
pub mod todo_handlers;
