//! Services used by handlers.

pub mod llm;
