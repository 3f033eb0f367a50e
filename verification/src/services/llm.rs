//! The language-model provider: chat types, the reading of provider
//! replies, and the client that plans a call and interprets its outcome.

pub mod answer;
pub mod chat;
pub mod client;
pub mod config;
pub mod error;
pub mod guarantees;
pub mod mock;
pub mod schema;
pub mod text;

pub use answer::AskResult;
pub use chat::{ChatMessage, ChatRequest, ChatResponse, Choice, Role};
pub use client::{AskStep, HttpCall, LlmProvider, OpenAiClient, Reply};
pub use config::ProviderConfig;
pub use error::ProviderError;
