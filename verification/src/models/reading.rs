use vstd::prelude::*;

verus! {

/// A reading requested by a user.
#[derive(Debug, Clone)]
pub struct Reading {
    pub id: i64,
    pub user_id: i64,
    pub question: String,
}

} // verus!
