use vstd::prelude::*;

verus! {

/// Why a rotation could not be carried out.
#[derive(Clone, Copy, Debug, PartialEq, Eq, Structural)]
pub enum RotateError {
    /// The axis token was none of `x`, `y`, `z` in either case.
    InvalidAxis,
}

impl RotateError {
    /// The text that describes this error.
    pub open spec fn spec_message(self) -> Seq<char> {
        match self {
            RotateError::InvalidAxis => "Invalid axis. Must be 'x', 'y', or 'z'."@,
        }
    }

    /// The text that describes this error.
    pub fn message(&self) -> (text: &'static str)
        ensures
            text@ == self.spec_message(),
    {
        match self {
            RotateError::InvalidAxis => "Invalid axis. Must be 'x', 'y', or 'z'.",
        }
    }
}

} // verus!
