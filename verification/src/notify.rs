//! Whether a newer version of the client is out.

use vstd::prelude::*;

verus! {

/// Whether a newer version is out. `reply` is what the workflow service
/// answered, or the reason why it did not; without an answer there is no
/// newer version.
pub fn update(reply: Result<bool, String>) -> (has_update: bool)
    ensures
        has_update == match reply {
            Ok(flag) => flag,
            Err(_) => false,
        },
{
    match reply {
        Ok(flag) => flag,
        Err(_) => false,
    }
}

} // verus!
