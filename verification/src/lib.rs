//! Data model and verified logic of a small multi-platform messenger client:
//! the Discord wire structures and their conversion into the client's own
//! types, the stored credentials, and the chat page's navigation state.

pub mod auth;
pub mod chat;
pub mod discord;
pub mod secure;
pub mod text;
pub mod types;
pub mod json_structs;
