use vstd::prelude::*;

verus! {

/// A registered user.
#[derive(Debug, Clone)]
pub struct User {
    pub id: i64,
    pub line_id: Option<String>,
    pub name: Option<String>,
}

} // verus!
