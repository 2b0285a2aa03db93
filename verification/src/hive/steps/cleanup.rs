//! Leaving nothing behind on a node.
use vstd::prelude::*;

verus! {

/// Cleans up after a deployment.
#[derive(Clone, Copy, Debug, PartialEq, Eq, Structural)]
pub struct CleanUp;

impl CleanUp {
    /// The step as it is shown to the user.
    pub fn to_string(&self) -> (s: String)
        ensures
            s@ == "Clean up"@,
    {
        "Clean up".to_owned()
    }

    /// Whether there is anything to clean up: not on this machine.
    pub fn should_execute(&self, should_apply_locally: bool) -> (r: bool)
        ensures
            r == !should_apply_locally,
    {
        !should_apply_locally
    }
}

} // verus!
