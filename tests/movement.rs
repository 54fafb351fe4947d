use voxel_sandbox::{axis, fly_heading, walk_heading, Heading, MoveKeys};

fn keys(forward: bool, backward: bool, left: bool, right: bool, up: bool, down: bool) -> MoveKeys {
    MoveKeys { forward, backward, left, right, up, down }
}

#[test]
fn axis_single_key_wins() {
    assert_eq!(axis(true, false), -1);
    assert_eq!(axis(false, true), 1);
}

#[test]
fn axis_opposing_or_no_keys_cancel() {
    assert_eq!(axis(true, true), 0);
    assert_eq!(axis(false, false), 0);
}

#[test]
fn walk_heading_ignores_vertical_keys() {
    let h = walk_heading(keys(true, false, false, true, true, false));
    assert_eq!(h, Heading { x: 1, y: 0, z: -1 });
    let h = walk_heading(keys(false, true, true, false, false, true));
    assert_eq!(h, Heading { x: -1, y: 0, z: 1 });
}

#[test]
fn fly_heading_uses_all_three_axes() {
    let h = fly_heading(keys(true, false, false, true, true, false));
    assert_eq!(h, Heading { x: 1, y: 1, z: -1 });
    let h = fly_heading(keys(false, false, true, true, false, true));
    assert_eq!(h, Heading { x: 0, y: -1, z: 0 });
    let h = fly_heading(keys(true, true, false, false, true, true));
    assert_eq!(h, Heading { x: 0, y: 0, z: 0 });
}
