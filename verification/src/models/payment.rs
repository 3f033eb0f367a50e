use vstd::prelude::*;

verus! {

/// A payment made by a user, in baht.
#[derive(Debug, Clone)]
pub struct Payment {
    pub id: i64,
    pub user_id: i64,
    pub amount_baht: u32,
}

} // verus!
