//! Database helpers and queries.

pub mod queries;

pub use queries::get_user_by_id_query;
