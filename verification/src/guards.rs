pub mod drop_guard_empty;
pub mod drop_guard_msg;
pub mod drop_guard_pass;

use vstd::prelude::*;

verus! {

/// The recoverable failure of converting a guard into its sentinel wrapper:
/// the guard was not armed, so there is no sentinel to hand out.
///
/// Unlike the fatal contract violation announced on implicit destruction,
/// this is an ordinary result a caller handles.
#[derive(Debug, Clone, Copy, PartialEq, Eq, Structural)]
pub struct GuardNotArmed;

impl GuardNotArmed {
    /// The diagnostic text of this failure.
    pub fn message(&self) -> (r: String)
        ensures
            r@ == "guard is not armed"@,
    {
        "guard is not armed".to_owned()
    }
}

} // verus!
