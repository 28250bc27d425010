use crate::axis::Axis;
use crate::error::RotateError;
use vstd::prelude::*;

verus! {

/// Turns the coordinates `v` about `axis`: hands the two coordinates of the
/// plane of rotation to `turn`, in the order of `Axis::plane`, and stores
/// what it returns in their places.  Both are read before either is
/// written, and the coordinate along the axis is left as it is.
pub fn turn_about<T: Copy, F: Fn(T, T) -> (T, T)>(v: &mut [T; 3], axis: Axis, turn: F)
    requires
        turn.requires(
            (old(v)[axis.plane().0.index() as int], old(v)[axis.plane().1.index() as int]),
        ),
    ensures
        final(v)[axis.index() as int] == old(v)[axis.index() as int],
        turn.ensures(
            (old(v)[axis.plane().0.index() as int], old(v)[axis.plane().1.index() as int]),
            (final(v)[axis.plane().0.index() as int], final(v)[axis.plane().1.index() as int]),
        ),
{
    let (first, second) = axis.plane();
    let i = first.index();
    let j = second.index();
    let (u, w) = turn(v[i], v[j]);
    v[i] = u;
    v[j] = w;
}

/// Rotates the coordinates `v` about the axis that `token` names, with
/// `turn` as the rotation of the plane.  A token that names no axis is
/// refused before anything is written: `v` is then as it was, and `turn`
/// was not needed.
pub fn rotate_with<T: Copy, F: Fn(T, T) -> (T, T)>(
    v: &mut [T; 3],
    token: &str,
    turn: F,
) -> (r: Result<(), RotateError>)
    requires
        Axis::named(token@) matches Some(axis) ==> turn.requires(
            (old(v)[axis.plane().0.index() as int], old(v)[axis.plane().1.index() as int]),
        ),
    ensures
        match Axis::named(token@) {
            None => r == Err::<(), RotateError>(RotateError::InvalidAxis) && *final(v) == *old(v),
            Some(axis) => {
                &&& r == Ok::<(), RotateError>(())
                &&& final(v)[axis.index() as int] == old(v)[axis.index() as int]
                &&& turn.ensures(
                    (old(v)[axis.plane().0.index() as int], old(v)[axis.plane().1.index() as int]),
                    (
                        final(v)[axis.plane().0.index() as int],
                        final(v)[axis.plane().1.index() as int],
                    ),
                )
            },
        },
{
    match Axis::parse(token) {
        Ok(axis) => {
            turn_about(v, axis, turn);
            Ok(())
        },
        Err(error) => Err(error),
    }
}

} // verus!
