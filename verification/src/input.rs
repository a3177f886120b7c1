//! The movement keys and the direction they point to on the screen.
use vstd::prelude::*;

verus! {

/// Which movement keys are held down: W (`up`), S (`down`), A (`left`) and
/// D (`right`).
#[derive(Clone, Copy, Debug, PartialEq, Eq, Default, Structural)]
pub struct KeyState {
    pub up: bool,
    pub down: bool,
    pub left: bool,
    pub right: bool,
}

/// The step along one axis when `negative` and `positive` are the keys that
/// point against and along it: opposite keys cancel out.
pub open spec fn axis(negative: bool, positive: bool) -> int {
    (if positive {
        1int
    } else {
        0int
    }) - (if negative {
        1int
    } else {
        0int
    })
}

/// The direction in which the keys push, in screen axes (`x` to the right,
/// `y` upwards), one unit per axis: W adds one to `y`, S takes one off, A
/// takes one off `x` and D adds one.
pub fn screen_direction(keys: KeyState) -> (d: (i32, i32))
    ensures
        d.0 == axis(keys.left, keys.right),
        d.1 == axis(keys.down, keys.up),
{
    let mut dx: i32 = 0;
    let mut dy: i32 = 0;
    if keys.up {
        dy = dy + 1;
    }
    if keys.down {
        dy = dy - 1;
    }
    if keys.left {
        dx = dx - 1;
    }
    if keys.right {
        dx = dx + 1;
    }
    (dx, dy)
}

/// Each component of the direction is -1, 0 or 1, and the direction is zero
/// exactly when, on each axis, both keys or neither are held.
pub proof fn lemma_direction_is_unit(keys: KeyState)
    ensures
        -1 <= axis(keys.left, keys.right) <= 1,
        -1 <= axis(keys.down, keys.up) <= 1,
        (axis(keys.left, keys.right) == 0 && axis(keys.down, keys.up) == 0) <==> (keys.left
            == keys.right && keys.down == keys.up),
{
}

/// The step along an axis is one when only the key pointing along it is
/// held, minus one when only the key pointing against it is held, and zero
/// when both or neither are held.
pub proof fn lemma_axis_values(negative: bool, positive: bool)
    ensures
        positive && !negative ==> axis(negative, positive) == 1,
        negative && !positive ==> axis(negative, positive) == -1,
        positive == negative ==> axis(negative, positive) == 0,
{
}

} // verus!
