//! A verified in-memory core for a multi-user todo list: accounts, session
//! tokens, and create/list/delete operations on todo items, each owned by a
//! user or by the anonymous guest.

pub mod model;
pub mod store;
pub mod auth;
pub mod todos;
pub mod handlers;
pub mod laws;
