//! Window placement: where a window of a given size stands when centred on a
//! display.
use vstd::prelude::*;

verus! {

/// Position and size of a display, in physical pixels.
#[derive(Clone, Copy, Debug)]
pub struct MonitorGeometry {
    pub x: i32,
    pub y: i32,
    pub width: u32,
    pub height: u32,
}

/// Half of `d`, rounded toward zero.
pub open spec fn half_toward_zero(d: int) -> int {
    if d >= 0 {
        d / 2
    } else {
        -((-d) / 2)
    }
}

/// The origin, along one axis, of a window of extent `size` centred on a
/// display that starts at `origin` and has extent `extent`.
pub open spec fn centered_origin(origin: int, extent: int, size: int) -> int {
    origin + half_toward_zero(extent - size)
}

/// `v` is a coordinate that a window can be moved to.
pub open spec fn fits_i32(v: int) -> bool {
    i32::MIN <= v <= i32::MAX
}

/// The centred origin along one axis, or `None` where it is no `i32`.
pub fn center_origin(origin: i32, extent: u32, size: u32) -> (r: Option<i32>)
    ensures
        r is Some <==> fits_i32(centered_origin(origin as int, extent as int, size as int)),
        r is Some ==> r->0 == centered_origin(origin as int, extent as int, size as int),
{
    let diff: i64 = extent as i64 - size as i64;
    let half: i64 = if diff >= 0 {
        diff / 2
    } else {
        -((-diff) / 2)
    };
    let v: i64 = origin as i64 + half;
    if v >= i32::MIN as i64 && v <= i32::MAX as i64 {
        Some(v as i32)
    } else {
        None
    }
}

/// The window origin that centres a `width` by `height` window on `monitor`,
/// or `None` where it cannot be expressed.
pub fn center_position(monitor: &MonitorGeometry, width: u32, height: u32) -> (r: Option<(i32, i32)>)
    ensures
        match r {
            Some((x, y)) => {
                &&& x == centered_origin(monitor.x as int, monitor.width as int, width as int)
                &&& y == centered_origin(monitor.y as int, monitor.height as int, height as int)
            },
            None => !fits_i32(centered_origin(monitor.x as int, monitor.width as int, width as int))
                || !fits_i32(centered_origin(monitor.y as int, monitor.height as int, height as int)),
        },
{
    match center_origin(monitor.x, monitor.width, width) {
        Some(x) => match center_origin(monitor.y, monitor.height, height) {
            Some(y) => Some((x, y)),
            None => None,
        },
        None => None,
    }
}

} // verus!
