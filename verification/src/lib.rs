//! Backend core for a question-answering service: the language-model
//! provider client, the JSON payloads it exchanges, and the small domain
//! records around it.
//!
//! The crate performs no I/O. The provider client says which HTTP call to
//! make and what a reply to it means; making the call is left to the
//! program that embeds the crate.

pub mod db;
pub mod handlers;
pub mod json;
pub mod middleware;
pub mod models;
pub mod services;
