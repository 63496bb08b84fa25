//! The coordinate mapper: device pixel coordinates to world space.
//!
//! A pure leaf stage, invoked by the drag tracker each frame: the device
//! position is first moved to window-centered coordinates by subtracting
//! half the window size, and the active camera's transform then carries the
//! centered point into world space.

use vstd::prelude::*;

verus! {

/// The active camera's world transform, reduced to what an axis-aligned 2D
/// camera applies to a point in the plane: a translation.
#[derive(Clone, Copy, Debug)]
pub struct CameraTransform {
    pub translation: (i64, i64),
}

/// The world position a device position maps to: window-centering followed
/// by the camera translation, or no position when the pointer is outside
/// the window.
pub open spec fn spec_world_pos(
    cursor: Option<(i64, i64)>,
    wnd_width: u32,
    wnd_height: u32,
    camera: CameraTransform,
) -> Option<(i64, i64)>
    recommends
        spec_world_pos_fits(cursor, wnd_width, wnd_height, camera),
{
    match cursor {
        Some(c) => Some(
            (
                (c.0 - (wnd_width / 2) as int + camera.translation.0) as i64,
                (c.1 - (wnd_height / 2) as int + camera.translation.1) as i64,
            ),
        ),
        None => None,
    }
}

/// The centered and translated coordinates stay within the machine integer
/// range, intermediate steps included.
pub open spec fn spec_world_pos_fits(
    cursor: Option<(i64, i64)>,
    wnd_width: u32,
    wnd_height: u32,
    camera: CameraTransform,
) -> bool {
    cursor matches Some(c) ==> {
        &&& i64::MIN <= c.0 - (wnd_width / 2) as int
        &&& i64::MIN <= c.0 - (wnd_width / 2) as int + camera.translation.0 <= i64::MAX
        &&& i64::MIN <= c.1 - (wnd_height / 2) as int
        &&& i64::MIN <= c.1 - (wnd_height / 2) as int + camera.translation.1 <= i64::MAX
    }
}

/// Maps the current device pointer position into world space. An absent
/// pointer — outside the window — is a legitimate "no position" result,
/// not an error, and never a panic.
pub fn transform_to_world(
    cursor: Option<(i64, i64)>,
    wnd_width: u32,
    wnd_height: u32,
    camera: &CameraTransform,
) -> (r: Option<(i64, i64)>)
    requires
        spec_world_pos_fits(cursor, wnd_width, wnd_height, *camera),
    ensures
        r == spec_world_pos(cursor, wnd_width, wnd_height, *camera),
        r is Some <==> cursor is Some,
{
    match cursor {
        Some(c) => {
            let half_w: i64 = (wnd_width / 2) as i64;
            let half_h: i64 = (wnd_height / 2) as i64;
            let wx: i64 = c.0 - half_w + camera.translation.0;
            let wy: i64 = c.1 - half_h + camera.translation.1;
            Some((wx, wy))
        },
        None => None,
    }
}

} // verus!
