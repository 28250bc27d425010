use crate::error::RotateError;
use vstd::prelude::*;

verus! {

/// One of the three coordinate axes of a right-handed Cartesian frame.
#[derive(Clone, Copy, Debug, PartialEq, Eq, Structural)]
pub enum Axis {
    X,
    Y,
    Z,
}

impl Axis {
    /// The axis that a token names: a single letter `x`, `y` or `z`, in
    /// either case.  No other token names an axis.
    pub open spec fn named(token: Seq<char>) -> Option<Axis> {
        if token.len() != 1 {
            None
        } else if token[0] == 'x' || token[0] == 'X' {
            Some(Axis::X)
        } else if token[0] == 'y' || token[0] == 'Y' {
            Some(Axis::Y)
        } else if token[0] == 'z' || token[0] == 'Z' {
            Some(Axis::Z)
        } else {
            None
        }
    }

    /// Reads an axis token.  Succeeds exactly on the tokens that name an
    /// axis, and fails with `InvalidAxis` on every other.
    pub fn parse(token: &str) -> (r: Result<Axis, RotateError>)
        ensures
            r == match Axis::named(token@) {
                Some(axis) => Ok::<Axis, RotateError>(axis),
                None => Err::<Axis, RotateError>(RotateError::InvalidAxis),
            },
    {
        broadcast use {vstd::string::axiom_spec_iter, vstd::string::next_postcondition};

        let mut letters = token.chars();
        let first = letters.next();
        let second = letters.next();
        match (first, second) {
            (Some(c), None) => {
                if c == 'x' || c == 'X' {
                    Ok(Axis::X)
                } else if c == 'y' || c == 'Y' {
                    Ok(Axis::Y)
                } else if c == 'z' || c == 'Z' {
                    Ok(Axis::Z)
                } else {
                    Err(RotateError::InvalidAxis)
                }
            },
            _ => Err(RotateError::InvalidAxis),
        }
    }

    /// The place of this axis among the coordinates: 0 for `x`, 1 for `y`,
    /// 2 for `z`.
    pub open spec fn spec_index(self) -> usize {
        match self {
            Axis::X => 0,
            Axis::Y => 1,
            Axis::Z => 2,
        }
    }

    /// The place of this axis among the coordinates.
    #[verifier::when_used_as_spec(spec_index)]
    pub fn index(self) -> (i: usize)
        ensures
            i == self.spec_index(),
    {
        match self {
            Axis::X => 0,
            Axis::Y => 1,
            Axis::Z => 2,
        }
    }

    /// The axis that follows this one in the cyclic order `x`, `y`, `z`, `x`.
    pub open spec fn successor(self) -> Axis {
        match self {
            Axis::X => Axis::Y,
            Axis::Y => Axis::Z,
            Axis::Z => Axis::X,
        }
    }

    /// The two axes that span the plane turned by a rotation about this
    /// axis: the next two in cyclic order.
    pub open spec fn spec_plane(self) -> (Axis, Axis) {
        (self.successor(), self.successor().successor())
    }

    /// The two axes that span the plane turned by a rotation about this
    /// axis, in the order that fixes the sense of the rotation: by an angle
    /// `t` the coordinates `(u, v)` along the first and the second become
    /// `(u cos t - v sin t, u sin t + v cos t)`.  The coordinate along the
    /// axis itself stays as it is.
    #[verifier::when_used_as_spec(spec_plane)]
    pub fn plane(self) -> (p: (Axis, Axis))
        ensures
            p == self.spec_plane(),
    {
        match self {
            Axis::X => (Axis::Y, Axis::Z),
            Axis::Y => (Axis::Z, Axis::X),
            Axis::Z => (Axis::X, Axis::Y),
        }
    }
}

} // verus!
