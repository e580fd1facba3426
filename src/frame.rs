use vstd::prelude::*;

verus! {

/// How many stars one press of the grow or shrink key adds or removes.
pub const STARS_PER_PRESS: usize = 10;

/// The two ways the field is shown: a flat parallax scroll driven by the
/// pointer, or a perspective view driven by camera keys.
#[derive(Clone, Copy, Debug, PartialEq, Eq, Structural)]
pub enum RenderMode {
    Parallax,
    Perspective,
}

/// The two keys that move one quantity up and down.
#[derive(Clone, Copy, Debug, PartialEq, Eq, Structural)]
pub struct AxisKeys {
    pub increase: bool,
    pub decrease: bool,
}

/// The keys held down during one frame.
#[derive(Clone, Copy, Debug, PartialEq, Eq, Structural)]
pub struct FrameInput {
    pub grow: bool,
    pub shrink: bool,
    pub parallax: bool,
    pub perspective: bool,
    pub camera_x: AxisKeys,
    pub camera_y: AxisKeys,
    pub camera_z: AxisKeys,
    pub pitch: AxisKeys,
    pub yaw: AxisKeys,
    pub roll: AxisKeys,
}

/// A number of unit steps along each of three axes; each is -1, 0 or 1.
#[derive(Clone, Copy, Debug, PartialEq, Eq, Structural)]
pub struct Motion {
    pub x: i8,
    pub y: i8,
    pub z: i8,
}

/// What the driver does in one frame. Stars are added before they are
/// removed; the field drifts with the pointer only when `drift` is set, and
/// the camera moves by `camera` and turns by `orientation` (pitch, yaw, roll)
/// in unit steps.
#[derive(Clone, Copy, Debug, PartialEq, Eq, Structural)]
pub struct FramePlan {
    pub mode: RenderMode,
    pub added: usize,
    pub removed: usize,
    pub drift: bool,
    pub camera: Motion,
    pub orientation: Motion,
}

/// The direction a pair of keys asks for: up, down, or none when both or
/// neither are held.
pub open spec fn axis_direction(k: AxisKeys) -> int {
    (if k.increase {
        1int
    } else {
        0int
    }) - (if k.decrease {
        1int
    } else {
        0int
    })
}

/// The mode after a frame's keys: the perspective key wins over the
/// parallax key, and with neither the mode stays.
pub open spec fn next_mode(mode: RenderMode, input: FrameInput) -> RenderMode {
    if input.perspective {
        RenderMode::Perspective
    } else if input.parallax {
        RenderMode::Parallax
    } else {
        mode
    }
}

pub open spec fn motion_is(m: Motion, x: AxisKeys, y: AxisKeys, z: AxisKeys) -> bool {
    &&& m.x == axis_direction(x)
    &&& m.y == axis_direction(y)
    &&& m.z == axis_direction(z)
}

pub open spec fn is_still(m: Motion) -> bool {
    m.x == 0 && m.y == 0 && m.z == 0
}

fn axis_step(k: AxisKeys) -> (r: i8)
    ensures
        r == axis_direction(k),
{
    let up: i8 = if k.increase {
        1
    } else {
        0
    };
    let down: i8 = if k.decrease {
        1
    } else {
        0
    };
    up - down
}

fn motion_of(x: AxisKeys, y: AxisKeys, z: AxisKeys) -> (m: Motion)
    ensures
        motion_is(m, x, y, z),
{
    Motion { x: axis_step(x), y: axis_step(y), z: axis_step(z) }
}

/// Decides one frame from the mode it starts in and the keys held down.
pub fn plan_frame(mode: RenderMode, input: &FrameInput) -> (p: FramePlan)
    ensures
        p.mode == next_mode(mode, *input),
        p.added == (if input.grow {
            STARS_PER_PRESS
        } else {
            0
        }),
        p.removed == (if input.shrink {
            STARS_PER_PRESS
        } else {
            0
        }),
        p.drift == (p.mode == RenderMode::Parallax),
        p.mode == RenderMode::Parallax ==> is_still(p.camera) && is_still(p.orientation),
        p.mode == RenderMode::Perspective ==> motion_is(
            p.camera,
            input.camera_x,
            input.camera_y,
            input.camera_z,
        ) && motion_is(p.orientation, input.pitch, input.yaw, input.roll),
{
    let added: usize = if input.grow {
        STARS_PER_PRESS
    } else {
        0
    };
    let removed: usize = if input.shrink {
        STARS_PER_PRESS
    } else {
        0
    };
    let next = if input.perspective {
        RenderMode::Perspective
    } else if input.parallax {
        RenderMode::Parallax
    } else {
        mode
    };
    let still = Motion { x: 0, y: 0, z: 0 };
    match next {
        RenderMode::Parallax => FramePlan {
            mode: next,
            added,
            removed,
            drift: true,
            camera: still,
            orientation: still,
        },
        RenderMode::Perspective => FramePlan {
            mode: next,
            added,
            removed,
            drift: false,
            camera: motion_of(input.camera_x, input.camera_y, input.camera_z),
            orientation: motion_of(input.pitch, input.yaw, input.roll),
        },
    }
}

/// The palette entry of the star at `index` when colors cycle through a
/// palette of `palette_len` entries in render order.
pub fn palette_index(index: usize, palette_len: usize) -> (r: usize)
    requires
        palette_len > 0,
    ensures
        r == index % palette_len,
        r < palette_len,
{
    index % palette_len
}

} // verus!
