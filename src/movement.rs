use vstd::prelude::*;

verus! {

/// Which movement keys are held during a frame.
#[derive(Clone, Copy, Debug, PartialEq, Eq, Structural)]
pub struct MoveKeys {
    pub forward: bool,
    pub backward: bool,
    pub left: bool,
    pub right: bool,
    pub up: bool,
    pub down: bool,
}

/// Direction of travel along each axis: -1, 0 or 1. Forward is -z, right is
/// +x, up is +y.
#[derive(Clone, Copy, Debug, PartialEq, Eq, Structural)]
pub struct Heading {
    pub x: i8,
    pub y: i8,
    pub z: i8,
}

/// Sign of travel along one axis from the key that pushes toward the negative
/// end and the one that pushes toward the positive end: one of them alone wins,
/// both or neither cancel out.
pub open spec fn axis_of(negative: bool, positive: bool) -> int {
    if negative && !positive {
        -1
    } else if positive && !negative {
        1
    } else {
        0
    }
}

/// Sign of travel along one axis; see `axis_of`.
pub fn axis(negative: bool, positive: bool) -> (r: i8)
    ensures
        r == axis_of(negative, positive),
{
    if negative && !positive {
        -1
    } else if positive && !negative {
        1
    } else {
        0
    }
}

/// Heading of a walking body: forward/backward on z, left/right on x. The
/// vertical axis is left to jumping and gravity, so `y` is 0.
pub fn walk_heading(keys: MoveKeys) -> (r: Heading)
    ensures
        r.x == axis_of(keys.left, keys.right),
        r.y == 0,
        r.z == axis_of(keys.forward, keys.backward),
{
    Heading { x: axis(keys.left, keys.right), y: 0, z: axis(keys.forward, keys.backward) }
}

/// Heading of a free-flying camera: as walking, with up/down on y.
pub fn fly_heading(keys: MoveKeys) -> (r: Heading)
    ensures
        r.x == axis_of(keys.left, keys.right),
        r.y == axis_of(keys.down, keys.up),
        r.z == axis_of(keys.forward, keys.backward),
{
    Heading {
        x: axis(keys.left, keys.right),
        y: axis(keys.down, keys.up),
        z: axis(keys.forward, keys.backward),
    }
}

} // verus!
