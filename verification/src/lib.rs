//! A bridge between a chat transport and a Readeck bookmarking server.
//!
//! The crate holds the decisions of the bridge and proves them: who may
//! save, which URL of a message is meant, what is asked of the server, what
//! each of its answers means, and what the sender is told. Sending and
//! receiving are left to the program around it, which feeds every answer
//! back as a plain value.

pub mod api;
pub mod bindings;
pub mod errors;
pub mod extract;
pub mod handler;
pub mod text;
pub mod users;

pub use api::{BookmarkCreateRequest, BookmarkDetailsResponse, ReadeckApi};
pub use errors::ReadeckError;
