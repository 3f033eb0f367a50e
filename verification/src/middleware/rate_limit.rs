//! Request admission.

use vstd::prelude::*;

verus! {

/// Whether the user may perform an action now. No limit is configured, so
/// every user is admitted.
pub fn allow_action(_user_id: &str) -> (allowed: bool)
    ensures
        allowed,
{
    true
}

} // verus!
