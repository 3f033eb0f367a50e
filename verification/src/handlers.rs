//! What the HTTP endpoints answer.

pub mod ask;
