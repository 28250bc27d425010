use crate::axis::Axis;
use vstd::prelude::*;

verus! {

/// A point of the integer lattice, by its `x`, `y` and `z` coordinates.
pub type Lattice = (int, int, int);

/// The unit vector along an axis.
pub open spec fn unit(axis: Axis) -> Lattice {
    match axis {
        Axis::X => (1, 0, 0),
        Axis::Y => (0, 1, 0),
        Axis::Z => (0, 0, 1),
    }
}

/// The cross product of two lattice vectors.
pub open spec fn cross(a: Lattice, b: Lattice) -> Lattice {
    (a.1 * b.2 - a.2 * b.1, a.2 * b.0 - a.0 * b.2, a.0 * b.1 - a.1 * b.0)
}

/// The successor of an axis is one place further on, and `x` follows `z`.
pub proof fn successor_is_cyclic(axis: Axis)
    ensures
        axis.successor().index() == (axis.index() + 1) % 3,
        axis.successor().successor().successor() == axis,
{
}

/// The plane of a rotation holds neither the axis itself nor one axis
/// twice: the three are the three axes of the frame.
pub proof fn plane_completes_frame(axis: Axis)
    ensures
        axis.plane().0 != axis,
        axis.plane().1 != axis,
        axis.plane().0 != axis.plane().1,
{
}

/// The plane of a rotation is right-handed about its axis: the cross
/// product of the unit vectors along its first and its second axis is the
/// unit vector along the axis of rotation.
pub proof fn plane_is_right_handed(axis: Axis)
    ensures
        cross(unit(axis.plane().0), unit(axis.plane().1)) == unit(axis),
{
    match axis {
        Axis::X => {
            assert(cross(unit(Axis::Y), unit(Axis::Z)) == unit(Axis::X));
        },
        Axis::Y => {
            assert(cross(unit(Axis::Z), unit(Axis::X)) == unit(Axis::Y));
        },
        Axis::Z => {
            assert(cross(unit(Axis::X), unit(Axis::Y)) == unit(Axis::Z));
        },
    }
}

} // verus!
