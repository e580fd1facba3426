use stars::frame::{palette_index, plan_frame, AxisKeys, FrameInput, Motion, RenderMode};

const NONE: AxisKeys = AxisKeys { increase: false, decrease: false };
const UP: AxisKeys = AxisKeys { increase: true, decrease: false };
const DOWN: AxisKeys = AxisKeys { increase: false, decrease: true };
const BOTH: AxisKeys = AxisKeys { increase: true, decrease: true };

fn idle() -> FrameInput {
    FrameInput {
        grow: false,
        shrink: false,
        parallax: false,
        perspective: false,
        camera_x: NONE,
        camera_y: NONE,
        camera_z: NONE,
        pitch: NONE,
        yaw: NONE,
        roll: NONE,
    }
}

const STILL: Motion = Motion { x: 0, y: 0, z: 0 };

#[test]
fn idle_frame_keeps_mode() {
    let p = plan_frame(RenderMode::Parallax, &idle());
    assert_eq!(p.mode, RenderMode::Parallax);
    assert!(p.drift);
    assert_eq!((p.added, p.removed), (0, 0));
    let p = plan_frame(RenderMode::Perspective, &idle());
    assert_eq!(p.mode, RenderMode::Perspective);
    assert!(!p.drift);
    assert_eq!(p.camera, STILL);
}

#[test]
fn grow_and_shrink_by_ten() {
    let mut input = idle();
    input.grow = true;
    input.shrink = true;
    let p = plan_frame(RenderMode::Parallax, &input);
    assert_eq!(p.added, 10);
    assert_eq!(p.removed, 10);
}

#[test]
fn perspective_key_wins() {
    let mut input = idle();
    input.parallax = true;
    input.perspective = true;
    assert_eq!(plan_frame(RenderMode::Parallax, &input).mode, RenderMode::Perspective);
    input.perspective = false;
    assert_eq!(plan_frame(RenderMode::Perspective, &input).mode, RenderMode::Parallax);
}

#[test]
fn camera_keys_move_only_in_perspective() {
    let mut input = idle();
    input.camera_x = UP;
    input.camera_y = DOWN;
    input.camera_z = BOTH;
    input.pitch = DOWN;
    input.yaw = UP;
    let p = plan_frame(RenderMode::Perspective, &input);
    assert_eq!(p.camera, Motion { x: 1, y: -1, z: 0 });
    assert_eq!(p.orientation, Motion { x: -1, y: 1, z: 0 });
    let p = plan_frame(RenderMode::Parallax, &input);
    assert_eq!(p.camera, STILL);
    assert_eq!(p.orientation, STILL);
}

#[test]
fn palette_cycles_in_render_order() {
    assert_eq!(palette_index(0, 3), 0);
    assert_eq!(palette_index(4, 3), 1);
    assert_eq!(palette_index(5, 3), 2);
    assert_eq!(palette_index(6, 3), 0);
    assert_eq!(palette_index(usize::MAX, 1), 0);
}
