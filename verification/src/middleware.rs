//! Rules applied to a request before it reaches a handler.

pub mod rate_limit;

pub use rate_limit::allow_action;
