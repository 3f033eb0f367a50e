//! Domain models used across the backend.

pub mod api;
pub mod payment;
pub mod reading;
pub mod user;

pub use api::{AskRequest, AskResponse};
pub use payment::Payment;
pub use reading::Reading;
pub use user::User;
