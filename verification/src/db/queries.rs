//! Database query texts.

use vstd::prelude::*;

verus! {

/// The text of the query that fetches one user row by its id.
pub open spec fn user_by_id_query_text() -> Seq<char> {
    "SELECT id, line_id, name FROM users WHERE id = $1"@
}

/// Query that selects a user by id. The id is bound as parameter `$1`, so
/// the text is the same for every id.
pub fn get_user_by_id_query(_id: i64) -> (query: &'static str)
    ensures
        query@ == user_by_id_query_text(),
{
    "SELECT id, line_id, name FROM users WHERE id = $1"
}

} // verus!
