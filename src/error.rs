use vstd::prelude::*;

verus! {

/// The uniform authentication failure: the computed tag does not match the
/// expected one. It carries no detail on why.
#[derive(Default, Debug, Copy, Clone, PartialEq, Eq, Structural)]
pub struct MacError;

impl MacError {
    /// The text that describes this failure.
    pub fn description(&self) -> (r: &'static str)
        ensures
            r@ == "MAC tag mismatch"@,
    {
        "MAC tag mismatch"
    }
}

} // verus!
