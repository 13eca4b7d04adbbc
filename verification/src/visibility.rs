//! Which bodies are drawn in a frame: not those that the eye is too close
//! to, and not those whose middle is out of view.

use crate::cuerpo::Vector3;
use vstd::prelude::*;

verus! {

/// How far beyond its own radius a body keeps the eye away before it is
/// left out of the frame, in millionths of a world unit.
pub const DISAPPEARANCE_BUFFER: i32 = 5_000_000;

/// A place in clip space: what the projection makes of a place in the
/// world, before the division by `w`. The four coordinates are in one
/// unit, whichever it is.
#[derive(Clone, Copy, Debug, PartialEq, Eq, Structural)]
pub struct ClipPoint {
    pub x: i64,
    pub y: i64,
    pub z: i64,
    pub w: i64,
}

/// The size of a number.
pub open spec fn magnitude(v: int) -> int {
    if v < 0 {
        -v
    } else {
        v
    }
}

/// The square of the distance between two places.
pub open spec fn distance_squared(p: Vector3, q: Vector3) -> int {
    (p.x - q.x) * (p.x - q.x) + (p.y - q.y) * (p.y - q.y) + (p.z - q.z) * (p.z - q.z)
}

/// Whether the eye is within `reach` of a place: at that distance or
/// nearer. Nothing is within a negative reach.
pub open spec fn within_reach(eye: Vector3, place: Vector3, reach: int) -> bool {
    reach >= 0 && distance_squared(eye, place) <= reach * reach
}

/// Whether a place is in view: after the division by `w` its `x` and `y`
/// are from -1 to 1 and its `z` is from 0 to 1. A place with `w` of zero
/// is not.
pub open spec fn in_frustum(p: ClipPoint) -> bool {
    &&& p.w != 0
    &&& magnitude(p.x as int) <= magnitude(p.w as int)
    &&& magnitude(p.y as int) <= magnitude(p.w as int)
    &&& magnitude(p.z as int) <= magnitude(p.w as int)
    &&& (p.z == 0 || (p.z > 0) == (p.w > 0))
}

/// A square is at most the square of what bounds the number in size.
proof fn lemma_square_bound(u: int, bound: int)
    by (nonlinear_arith)
    requires
        -bound <= u <= bound,
    ensures
        0 <= u * u <= bound * bound,
{
}

/// Whether the eye is so close to a body of the given size that the body
/// is left out: the distance from the eye to the body's place is at most
/// the body's size and the buffer together.
pub fn is_too_close(eye: &Vector3, place: &Vector3, scale: i32, buffer: i32) -> (close: bool)
    ensures
        close == within_reach(*eye, *place, scale + buffer),
{
    let reach: i64 = scale as i64 + buffer as i64;
    if reach < 0 {
        return false;
    }
    let dx: i64 = eye.x as i64 - place.x as i64;
    let dy: i64 = eye.y as i64 - place.y as i64;
    let dz: i64 = eye.z as i64 - place.z as i64;
    proof {
        lemma_square_bound(dx as int, 0x1_0000_0000);
        lemma_square_bound(dy as int, 0x1_0000_0000);
        lemma_square_bound(dz as int, 0x1_0000_0000);
        lemma_square_bound(reach as int, 0x1_0000_0000);
    }
    let far: i128 = (dx as i128) * (dx as i128) + (dy as i128) * (dy as i128) + (dz as i128) * (
    dz as i128);
    far <= (reach as i128) * (reach as i128)
}

fn size(v: i64) -> (m: i128)
    ensures
        m == magnitude(v as int),
{
    if v < 0 {
        -(v as i128)
    } else {
        v as i128
    }
}

/// Whether a place in clip space is in view.
pub fn is_in_camera(position: &ClipPoint) -> (visible: bool)
    ensures
        visible == in_frustum(*position),
{
    let w = size(position.w);
    position.w != 0 && size(position.x) <= w && size(position.y) <= w && size(position.z) <= w && (
    position.z == 0 || (position.z > 0) == (position.w > 0))
}

/// Whether a body is drawn in a frame: the eye is not too close to it and
/// its middle is in view.
pub fn is_drawn(eye: &Vector3, place: &Vector3, scale: i32, clip: &ClipPoint) -> (drawn: bool)
    ensures
        drawn == (!within_reach(*eye, *place, scale + DISAPPEARANCE_BUFFER) && in_frustum(*clip)),
        within_reach(*eye, *place, scale + DISAPPEARANCE_BUFFER) ==> !drawn,
{
    !is_too_close(eye, place, scale, DISAPPEARANCE_BUFFER) && is_in_camera(clip)
}

/// A place is in view exactly if `w` is not zero and the quotients `x / w`
/// and `y / w` are from -1 to 1 and `z / w` is from 0 to 1. Stated without
/// division: each bound multiplied by `w * w`, which is above zero.
pub proof fn lemma_in_frustum_is_ndc_range(p: ClipPoint)
    ensures
        in_frustum(p) <==> p.w != 0 && -(p.w * p.w) <= p.x * p.w <= p.w * p.w && -(p.w * p.w)
            <= p.y * p.w <= p.w * p.w && 0 <= p.z * p.w <= p.w * p.w,
{
    let (x, y, z, w) = (p.x as int, p.y as int, p.z as int, p.w as int);
    if w != 0 {
        lemma_quotient_range(x, w);
        lemma_quotient_range(y, w);
        lemma_quotient_range(z, w);
        assert(0 <= z * w <==> (z == 0 || (z > 0) == (w > 0))) by (nonlinear_arith)
            requires
                w != 0,
        ;
    }
}

/// `v / w` is from -1 to 1 exactly if `v` is no larger than `w` in size.
proof fn lemma_quotient_range(v: int, w: int)
    by (nonlinear_arith)
    requires
        w != 0,
    ensures
        -(w * w) <= v * w <= w * w <==> magnitude(v) <= magnitude(w),
{
}

} // verus!
