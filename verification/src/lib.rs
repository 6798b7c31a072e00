//! The decisions behind a Unix terminal handle.
//!
//! Every operation on the terminal is a small machine. Starting it yields a [`protocol::Step`]:
//! either the result, or a request to carry out on the terminal together with what is pending.
//! The reply to the request is handed back to the matching `_resume` function, which yields the
//! next step. Nothing in this crate touches a file, a process or a global.

pub mod attributes;
pub mod descriptor;
pub mod global;
pub mod laws;
pub mod protocol;
pub mod query;
pub mod size;
pub mod terminal;
