//! Primitive assembly and scan conversion: which pixels a triangle covers
//! and with what weights its corners meet in each of them.
//!
//! Corners are given in sixteenths of a pixel and all arithmetic is exact,
//! so two triangles that share an edge cover the pixels on it alike and
//! leave no seam between them.

use vstd::prelude::*;

verus! {

/// How many steps of the screen grid make one pixel.
pub const SUBPIXEL: i32 = 16;

/// A place on the screen, in sixteenths of a pixel. Pixel `(x, y)` is
/// sampled at the place `(16 x, 16 y)`.
#[derive(Clone, Copy, Debug, PartialEq, Eq, Structural)]
pub struct ScreenPoint {
    pub x: i32,
    pub y: i32,
}

/// Three places in a stream of vertices that make one triangle.
#[derive(Clone, Copy, Debug, PartialEq, Eq, Structural)]
pub struct Triangle {
    pub a: usize,
    pub b: usize,
    pub c: usize,
}

/// A pixel that a triangle covers, with the weights of the triangle's
/// three corners there. The weights have the sign of the triangle's area
/// and add up to twice that area: a weight divided by their sum is the
/// share of its corner in whatever is interpolated across the triangle.
#[derive(Clone, Copy, Debug, PartialEq, Eq, Structural)]
pub struct Fragment {
    pub x: usize,
    pub y: usize,
    pub wa: i128,
    pub wb: i128,
    pub wc: i128,
}

/// Twice the signed area of the triangle from `(ax, ay)` over `(bx, by)`
/// to `(px, py)`.
pub open spec fn edge(ax: int, ay: int, bx: int, by: int, px: int, py: int) -> int {
    (bx - ax) * (py - ay) - (by - ay) * (px - ax)
}

/// Twice the signed area of a triangle. It is zero if the corners lie on
/// one line.
pub open spec fn area(a: ScreenPoint, b: ScreenPoint, c: ScreenPoint) -> int {
    edge(a.x as int, a.y as int, b.x as int, b.y as int, c.x as int, c.y as int)
}

/// The weight of corner `a` at pixel `(x, y)`.
pub open spec fn weight_a(a: ScreenPoint, b: ScreenPoint, c: ScreenPoint, x: int, y: int) -> int {
    edge(b.x as int, b.y as int, c.x as int, c.y as int, x * SUBPIXEL, y * SUBPIXEL)
}

/// The weight of corner `b` at pixel `(x, y)`.
pub open spec fn weight_b(a: ScreenPoint, b: ScreenPoint, c: ScreenPoint, x: int, y: int) -> int {
    edge(c.x as int, c.y as int, a.x as int, a.y as int, x * SUBPIXEL, y * SUBPIXEL)
}

/// The weight of corner `c` at pixel `(x, y)`.
pub open spec fn weight_c(a: ScreenPoint, b: ScreenPoint, c: ScreenPoint, x: int, y: int) -> int {
    edge(a.x as int, a.y as int, b.x as int, b.y as int, x * SUBPIXEL, y * SUBPIXEL)
}

/// Whether a triangle covers pixel `(x, y)`: the triangle has an area, and
/// the share of each corner at the pixel is from 0 to 1, both included.
/// The triangle may wind either way.
pub open spec fn covers(a: ScreenPoint, b: ScreenPoint, c: ScreenPoint, x: int, y: int) -> bool {
    ||| area(a, b, c) > 0 && weight_a(a, b, c, x, y) >= 0 && weight_b(a, b, c, x, y) >= 0
        && weight_c(a, b, c, x, y) >= 0
    ||| area(a, b, c) < 0 && weight_a(a, b, c, x, y) <= 0 && weight_b(a, b, c, x, y) <= 0
        && weight_c(a, b, c, x, y) <= 0
}

/// Whether the fragments hold one for pixel `(x, y)`.
pub open spec fn holds(fragments: Seq<Fragment>, x: int, y: int) -> bool {
    exists|i: int| 0 <= i < fragments.len() && (#[trigger] fragments[i]).x == x && fragments[i].y == y
}

/// Whether `p` comes before `q` when pixels are read row by row from the
/// top, each row from the left.
pub open spec fn reads_before(p: Fragment, q: Fragment) -> bool {
    p.y < q.y || (p.y == q.y && p.x < q.x)
}

/// Whether the fragments are what a triangle gives on a frame of the given
/// size: a fragment for every pixel of the frame that the triangle covers
/// and for no other, each with the weights of the corners at its pixel,
/// in reading order, and so each pixel once.
pub open spec fn is_coverage(
    fragments: Seq<Fragment>,
    a: ScreenPoint,
    b: ScreenPoint,
    c: ScreenPoint,
    width: int,
    height: int,
) -> bool {
    &&& forall|i: int|
        0 <= i < fragments.len() ==> {
            &&& (#[trigger] fragments[i]).x < width
            &&& fragments[i].y < height
            &&& covers(a, b, c, fragments[i].x as int, fragments[i].y as int)
            &&& fragments[i].wa == weight_a(a, b, c, fragments[i].x as int, fragments[i].y as int)
            &&& fragments[i].wb == weight_b(a, b, c, fragments[i].x as int, fragments[i].y as int)
            &&& fragments[i].wc == weight_c(a, b, c, fragments[i].x as int, fragments[i].y as int)
        }
    &&& forall|x: int, y: int|
        0 <= x < width && 0 <= y < height && #[trigger] covers(a, b, c, x, y) ==> holds(
            fragments,
            x,
            y,
        )
    &&& forall|i: int, j: int|
        0 <= i < j < fragments.len() ==> reads_before(#[trigger] fragments[i], #[trigger] fragments[j])
}

/// The least of three numbers.
pub open spec fn min3(p: int, q: int, r: int) -> int {
    if p <= q && p <= r {
        p
    } else if q <= r {
        q
    } else {
        r
    }
}

/// The greatest of three numbers.
pub open spec fn max3(p: int, q: int, r: int) -> int {
    if p >= q && p >= r {
        p
    } else if q >= r {
        q
    } else {
        r
    }
}

/// A product of two differences, multiplied out.
proof fn lemma_expand(u: int, v: int, s: int, t: int)
    by (nonlinear_arith)
    ensures
        (u - v) * (s - t) == u * s - u * t - v * s + v * t,
{
}

/// A difference times a number, multiplied out.
proof fn lemma_distribute(u: int, v: int, w: int)
    by (nonlinear_arith)
    ensures
        (u - v) * w == u * w - v * w,
{
}

/// A product of three numbers does not depend on where one starts.
proof fn lemma_rotate(u: int, v: int, w: int)
    by (nonlinear_arith)
    ensures
        (u * v) * w == (v * w) * u,
{
}

/// The area spanned with a point is the cross product of the two corners
/// as seen from that point.
proof fn lemma_edge_from(ax: int, ay: int, bx: int, by: int, px: int, py: int)
    ensures
        edge(ax, ay, bx, by, px, py) == (ax - px) * (by - py) - (ay - py) * (bx - px),
{
    lemma_expand(bx, ax, py, ay);
    lemma_expand(by, ay, px, ax);
    lemma_expand(ax, px, by, py);
    lemma_expand(ay, py, bx, px);
    assert(bx * py == py * bx && ax * py == py * ax && by * px == px * by && ay * px == px * ay
        && ay * ax == ax * ay && by * ax == ax * by && bx * ay == ay * bx && px * py == py * px)
        by (nonlinear_arith);
}

/// Three vectors, each taken with the cross product of the other two, add
/// up to nothing.
proof fn lemma_cross_cancels(ax: int, ay: int, bx: int, by: int, cx: int, cy: int)
    ensures
        (bx * cy - by * cx) * ax + (cx * ay - cy * ax) * bx + (ax * by - ay * bx) * cx == 0,
        (bx * cy - by * cx) * ay + (cx * ay - cy * ax) * by + (ax * by - ay * bx) * cy == 0,
{
    lemma_distribute(bx * cy, by * cx, ax);
    lemma_distribute(cx * ay, cy * ax, bx);
    lemma_distribute(ax * by, ay * bx, cx);
    lemma_rotate(bx, cy, ax);
    lemma_rotate(ax, by, cx);
    lemma_rotate(cx, ay, bx);

    lemma_distribute(bx * cy, by * cx, ay);
    lemma_distribute(cx * ay, cy * ax, by);
    lemma_distribute(ax * by, ay * bx, cy);
    lemma_rotate(bx, cy, ay);
    lemma_rotate(ay, bx, cy);
    lemma_rotate(cx, ay, by);
    lemma_rotate(cy, ax, by);
    lemma_rotate(by, cx, ay);
}

/// The weights of the three corners add up to twice the triangle's area,
/// wherever they are taken.
pub proof fn lemma_weights_sum(a: ScreenPoint, b: ScreenPoint, c: ScreenPoint, x: int, y: int)
    ensures
        weight_a(a, b, c, x, y) + weight_b(a, b, c, x, y) + weight_c(a, b, c, x, y) == area(a, b, c),
{
    let (ax, ay, bx, by, cx, cy) = (
        a.x as int,
        a.y as int,
        b.x as int,
        b.y as int,
        c.x as int,
        c.y as int,
    );
    let px = x * SUBPIXEL;
    let py = y * SUBPIXEL;
    lemma_expand(cx, bx, py, by);
    lemma_expand(cy, by, px, bx);
    lemma_expand(ax, cx, py, cy);
    lemma_expand(ay, cy, px, cx);
    lemma_expand(bx, ax, py, ay);
    lemma_expand(by, ay, px, ax);
    lemma_expand(bx, ax, cy, ay);
    lemma_expand(by, ay, cx, ax);
    assert(cx * by == by * cx && bx * by == by * bx && cy * bx == bx * cy && ax * cy == cy * ax
        && cx * cy == cy * cx && ay * cx == cx * ay && bx * ay == ay * bx && ax * ay == ay * ax
        && by * ax == ax * by) by (nonlinear_arith);
}

/// Seen from a sample point, the corners of a triangle, each taken with
/// its weight at the point, add up to nothing.
proof fn lemma_weights_balance(
    ax: int,
    ay: int,
    bx: int,
    by: int,
    cx: int,
    cy: int,
    px: int,
    py: int,
)
    ensures
        edge(bx, by, cx, cy, px, py) * (ax - px) + edge(cx, cy, ax, ay, px, py) * (bx - px) + edge(
            ax,
            ay,
            bx,
            by,
            px,
            py,
        ) * (cx - px) == 0,
        edge(bx, by, cx, cy, px, py) * (ay - py) + edge(cx, cy, ax, ay, px, py) * (by - py) + edge(
            ax,
            ay,
            bx,
            by,
            px,
            py,
        ) * (cy - py) == 0,
{
    lemma_edge_from(bx, by, cx, cy, px, py);
    lemma_edge_from(cx, cy, ax, ay, px, py);
    lemma_edge_from(ax, ay, bx, by, px, py);
    lemma_cross_cancels(ax - px, ay - py, bx - px, by - py, cx - px, cy - py);
}

/// A mean with weights of one sign lies between the least and the
/// greatest of what is averaged.
proof fn lemma_mean_between(wa: int, wb: int, wc: int, p: int, q: int, r: int, total: int, m: int)
    requires
        wa + wb + wc == total,
        wa * p + wb * q + wc * r == total * m,
        (total > 0 && wa >= 0 && wb >= 0 && wc >= 0) || (total < 0 && wa <= 0 && wb <= 0 && wc <= 0),
    ensures
        min3(p, q, r) <= m <= max3(p, q, r),
{
    let lo = min3(p, q, r);
    let hi = max3(p, q, r);
    if total > 0 {
        assert(wa * p >= wa * lo && wa * p <= wa * hi) by (nonlinear_arith)
            requires
                wa >= 0,
                lo <= p <= hi,
        ;
        assert(wb * q >= wb * lo && wb * q <= wb * hi) by (nonlinear_arith)
            requires
                wb >= 0,
                lo <= q <= hi,
        ;
        assert(wc * r >= wc * lo && wc * r <= wc * hi) by (nonlinear_arith)
            requires
                wc >= 0,
                lo <= r <= hi,
        ;
        assert(wa * lo + wb * lo + wc * lo == total * lo) by (nonlinear_arith)
            requires
                wa + wb + wc == total,
        ;
        assert(wa * hi + wb * hi + wc * hi == total * hi) by (nonlinear_arith)
            requires
                wa + wb + wc == total,
        ;
        assert(lo <= m <= hi) by (nonlinear_arith)
            requires
                total > 0,
                total * lo <= total * m <= total * hi,
        ;
    } else {
        assert(wa * p <= wa * lo && wa * p >= wa * hi) by (nonlinear_arith)
            requires
                wa <= 0,
                lo <= p <= hi,
        ;
        assert(wb * q <= wb * lo && wb * q >= wb * hi) by (nonlinear_arith)
            requires
                wb <= 0,
                lo <= q <= hi,
        ;
        assert(wc * r <= wc * lo && wc * r >= wc * hi) by (nonlinear_arith)
            requires
                wc <= 0,
                lo <= r <= hi,
        ;
        assert(wa * lo + wb * lo + wc * lo == total * lo) by (nonlinear_arith)
            requires
                wa + wb + wc == total,
        ;
        assert(wa * hi + wb * hi + wc * hi == total * hi) by (nonlinear_arith)
            requires
                wa + wb + wc == total,
        ;
        assert(lo <= m <= hi) by (nonlinear_arith)
            requires
                total < 0,
                total * hi <= total * m <= total * lo,
        ;
    }
}

/// A pixel that a triangle covers is sampled within the box round the
/// triangle's corners.
pub proof fn lemma_covered_in_box(a: ScreenPoint, b: ScreenPoint, c: ScreenPoint, x: int, y: int)
    requires
        covers(a, b, c, x, y),
    ensures
        min3(a.x as int, b.x as int, c.x as int) <= x * SUBPIXEL <= max3(
            a.x as int,
            b.x as int,
            c.x as int,
        ),
        min3(a.y as int, b.y as int, c.y as int) <= y * SUBPIXEL <= max3(
            a.y as int,
            b.y as int,
            c.y as int,
        ),
{
    let px = x * SUBPIXEL;
    let py = y * SUBPIXEL;
    let total = area(a, b, c);
    lemma_weights_sum(a, b, c, x, y);
    lemma_weights_balance(
        a.x as int,
        a.y as int,
        b.x as int,
        b.y as int,
        c.x as int,
        c.y as int,
        px,
        py,
    );
    assert(total * 0 == 0);
    lemma_mean_between(
        weight_a(a, b, c, x, y),
        weight_b(a, b, c, x, y),
        weight_c(a, b, c, x, y),
        a.x - px,
        b.x - px,
        c.x - px,
        total,
        0,
    );
    lemma_mean_between(
        weight_a(a, b, c, x, y),
        weight_b(a, b, c, x, y),
        weight_c(a, b, c, x, y),
        a.y - py,
        b.y - py,
        c.y - py,
        total,
        0,
    );
}

/// Taking two corners the other way round turns the sign of the area
/// they span with a point.
proof fn lemma_edge_turns(ax: int, ay: int, bx: int, by: int, px: int, py: int)
    ensures
        edge(bx, by, ax, ay, px, py) == -edge(ax, ay, bx, by, px, py),
{
    lemma_edge_from(ax, ay, bx, by, px, py);
    lemma_edge_from(bx, by, ax, ay, px, py);
    assert((bx - px) * (ay - py) == (ay - py) * (bx - px) && (by - py) * (ax - px) == (ax - px) * (
    by - py)) by (nonlinear_arith);
}

/// A triangle covers the same pixels whichever way it winds. Wound the
/// other way, the area and the weight of every corner change their sign.
pub proof fn lemma_winding(a: ScreenPoint, b: ScreenPoint, c: ScreenPoint, x: int, y: int)
    ensures
        covers(a, c, b, x, y) == covers(a, b, c, x, y),
        area(a, c, b) == -area(a, b, c),
        weight_a(a, c, b, x, y) == -weight_a(a, b, c, x, y),
        weight_b(a, c, b, x, y) == -weight_c(a, b, c, x, y),
        weight_c(a, c, b, x, y) == -weight_b(a, b, c, x, y),
{
    let px = x * SUBPIXEL;
    let py = y * SUBPIXEL;
    lemma_edge_turns(b.x as int, b.y as int, c.x as int, c.y as int, px, py);
    lemma_edge_turns(a.x as int, a.y as int, b.x as int, b.y as int, px, py);
    lemma_edge_turns(c.x as int, c.y as int, a.x as int, a.y as int, px, py);
    lemma_weights_sum(a, b, c, x, y);
    lemma_weights_sum(a, c, b, x, y);
}

/// At a covered pixel the share of every corner is from 0 to 1: its
/// weight has the sign of the area and is no larger in size.
pub proof fn lemma_shares_in_range(a: ScreenPoint, b: ScreenPoint, c: ScreenPoint, x: int, y: int)
    requires
        covers(a, b, c, x, y),
    ensures
        area(a, b, c) > 0 ==> 0 <= weight_a(a, b, c, x, y) <= area(a, b, c) && 0 <= weight_b(
            a,
            b,
            c,
            x,
            y,
        ) <= area(a, b, c) && 0 <= weight_c(a, b, c, x, y) <= area(a, b, c),
        area(a, b, c) < 0 ==> area(a, b, c) <= weight_a(a, b, c, x, y) <= 0 && area(a, b, c)
            <= weight_b(a, b, c, x, y) <= 0 && area(a, b, c) <= weight_c(a, b, c, x, y) <= 0,
        area(a, b, c) != 0,
{
    lemma_weights_sum(a, b, c, x, y);
}

/// A triangle whose corners lie on one line covers nothing.
pub proof fn lemma_flat_covers_nothing(a: ScreenPoint, b: ScreenPoint, c: ScreenPoint, x: int, y: int)
    requires
        area(a, b, c) == 0,
    ensures
        !covers(a, b, c, x, y),
{
}

/// The size of a product is at most the product of the sizes.
proof fn lemma_product_bound(u: int, v: int, bound: int)
    by (nonlinear_arith)
    requires
        -bound <= u <= bound,
        -bound <= v <= bound,
    ensures
        -bound * bound <= u * v <= bound * bound,
{
}

fn edge_function(a: &ScreenPoint, b: &ScreenPoint, px: i64, py: i64) -> (e: i128)
    requires
        -0x8000_0000 <= px <= 0x7fff_ffff,
        -0x8000_0000 <= py <= 0x7fff_ffff,
    ensures
        e == edge(a.x as int, a.y as int, b.x as int, b.y as int, px as int, py as int),
{
    let dx: i64 = b.x as i64 - a.x as i64;
    let dy: i64 = b.y as i64 - a.y as i64;
    let qx: i64 = px - a.x as i64;
    let qy: i64 = py - a.y as i64;
    proof {
        lemma_product_bound(dx as int, qy as int, 0x1_0000_0000);
        lemma_product_bound(dy as int, qx as int, 0x1_0000_0000);
    }
    (dx as i128) * (qy as i128) - (dy as i128) * (qx as i128)
}

fn least(p: i32, q: i32, r: i32) -> (m: i32)
    ensures
        m == min3(p as int, q as int, r as int),
{
    if p <= q && p <= r {
        p
    } else if q <= r {
        q
    } else {
        r
    }
}

fn greatest(p: i32, q: i32, r: i32) -> (m: i32)
    ensures
        m == max3(p as int, q as int, r as int),
{
    if p >= q && p >= r {
        p
    } else if q >= r {
        q
    } else {
        r
    }
}

/// The first pixel of a row or column that is sampled at or after `low`,
/// and the last one that is sampled at or before `high` and is within
/// `size` pixels; nothing if there is no such pixel.
fn pixel_span(low: i32, high: i32, size: usize) -> (span: Option<(usize, usize)>)
    requires
        low <= high,
    ensures
        span matches Some((first, last)) ==> first <= last < size && last < 0x800_0000
            && forall|x: int|
            0 <= x < size && low <= #[trigger] (x * SUBPIXEL) <= high ==> first <= x <= last,
        span is None ==> forall|x: int|
            0 <= x < size ==> !(low <= #[trigger] (x * SUBPIXEL) <= high),
{
    if high < 0 || size == 0 {
        return None;
    }
    let first: usize = if low <= 0 {
        0
    } else {
        ((low as i64 + 15) / 16) as usize
    };
    let reach: usize = (high / 16) as usize;
    let last: usize = if reach >= size {
        size - 1
    } else {
        reach
    };
    if first > last {
        None
    } else {
        Some((first, last))
    }
}

/// Adding a fragment loses none.
proof fn lemma_holds_push(fragments: Seq<Fragment>, f: Fragment, x: int, y: int)
    requires
        holds(fragments, x, y) || (f.x == x && f.y == y),
    ensures
        holds(fragments.push(f), x, y),
{
    if holds(fragments, x, y) {
        let i = choose|i: int|
            0 <= i < fragments.len() && (#[trigger] fragments[i]).x == x && fragments[i].y == y;
        assert(fragments.push(f)[i] == fragments[i]);
    } else {
        assert(fragments.push(f)[fragments.len() as int] == f);
    }
}

/// Scan conversion of one triangle on a frame of the given size. A
/// triangle without area gives no fragments.
pub fn triangle(
    a: &ScreenPoint,
    b: &ScreenPoint,
    c: &ScreenPoint,
    width: usize,
    height: usize,
) -> (fragments: Vec<Fragment>)
    ensures
        is_coverage(fragments@, *a, *b, *c, width as int, height as int),
{
    let mut fragments: Vec<Fragment> = Vec::new();
    let total: i128 = edge_function(a, b, c.x as i64, c.y as i64);
    let columns = pixel_span(least(a.x, b.x, c.x), greatest(a.x, b.x, c.x), width);
    let rows = pixel_span(least(a.y, b.y, c.y), greatest(a.y, b.y, c.y), height);
    proof {
        assert forall|x: int, y: int| #[trigger] covers(*a, *b, *c, x, y) implies min3(
            a.x as int,
            b.x as int,
            c.x as int,
        ) <= x * SUBPIXEL <= max3(a.x as int, b.x as int, c.x as int) && min3(
            a.y as int,
            b.y as int,
            c.y as int,
        ) <= y * SUBPIXEL <= max3(a.y as int, b.y as int, c.y as int) by {
            lemma_covered_in_box(*a, *b, *c, x, y);
        }
    }
    if total == 0 || columns.is_none() || rows.is_none() {
        return fragments;
    }
    let (first_x, last_x) = columns.unwrap();
    let (first_y, last_y) = rows.unwrap();
    let mut y: usize = first_y;
    while y <= last_y
        invariant
            first_x <= last_x < width,
            last_x < 0x800_0000,
            first_y <= y <= last_y + 1,
            last_y < height,
            last_y < 0x800_0000,
            total == area(*a, *b, *c),
            total != 0,
            forall|i: int|
                0 <= i < fragments.len() ==> {
                    &&& first_x <= (#[trigger] fragments[i]).x <= last_x
                    &&& first_y <= fragments[i].y < y
                    &&& covers(*a, *b, *c, fragments[i].x as int, fragments[i].y as int)
                    &&& fragments[i].wa == weight_a(
                        *a,
                        *b,
                        *c,
                        fragments[i].x as int,
                        fragments[i].y as int,
                    )
                    &&& fragments[i].wb == weight_b(
                        *a,
                        *b,
                        *c,
                        fragments[i].x as int,
                        fragments[i].y as int,
                    )
                    &&& fragments[i].wc == weight_c(
                        *a,
                        *b,
                        *c,
                        fragments[i].x as int,
                        fragments[i].y as int,
                    )
                },
            forall|px: int, py: int|
                first_x <= px <= last_x && first_y <= py < y && #[trigger] covers(*a, *b, *c, px, py)
                    ==> holds(fragments@, px, py),
            forall|i: int, j: int|
                0 <= i < j < fragments.len() ==> reads_before(
                    #[trigger] fragments[i],
                    #[trigger] fragments[j],
                ),
        decreases last_y + 1 - y,
    {
        let mut x: usize = first_x;
        while x <= last_x
            invariant
                first_x <= x <= last_x + 1,
                last_x < width,
                last_x < 0x800_0000,
                first_y <= y <= last_y,
                last_y < 0x800_0000,
                total == area(*a, *b, *c),
                total != 0,
                forall|i: int|
                    0 <= i < fragments.len() ==> {
                        &&& first_x <= (#[trigger] fragments[i]).x <= last_x
                        &&& first_y <= fragments[i].y <= y
                        &&& fragments[i].y == y ==> fragments[i].x < x
                        &&& covers(*a, *b, *c, fragments[i].x as int, fragments[i].y as int)
                        &&& fragments[i].wa == weight_a(
                            *a,
                            *b,
                            *c,
                            fragments[i].x as int,
                            fragments[i].y as int,
                        )
                        &&& fragments[i].wb == weight_b(
                            *a,
                            *b,
                            *c,
                            fragments[i].x as int,
                            fragments[i].y as int,
                        )
                        &&& fragments[i].wc == weight_c(
                            *a,
                            *b,
                            *c,
                            fragments[i].x as int,
                            fragments[i].y as int,
                        )
                    },
                forall|px: int, py: int|
                    first_x <= px <= last_x && (first_y <= py < y || (py == y && px < x))
                        && #[trigger] covers(*a, *b, *c, px, py) ==> holds(fragments@, px, py),
                forall|i: int, j: int|
                    0 <= i < j < fragments.len() ==> reads_before(
                        #[trigger] fragments[i],
                        #[trigger] fragments[j],
                    ),
            decreases last_x + 1 - x,
        {
            let px: i64 = (x as i64) * 16;
            let py: i64 = (y as i64) * 16;
            let wa: i128 = edge_function(b, c, px, py);
            let wb: i128 = edge_function(c, a, px, py);
            let wc: i128 = edge_function(a, b, px, py);
            let inside = (total > 0 && wa >= 0 && wb >= 0 && wc >= 0) || (total < 0 && wa <= 0 && wb
                <= 0 && wc <= 0);
            let ghost before = fragments@;
            if inside {
                let f = Fragment { x, y, wa, wb, wc };
                fragments.push(f);
                proof {
                    assert forall|qx: int, qy: int|
                        first_x <= qx <= last_x && (first_y <= qy < y || (qy == y && qx < x + 1))
                            && #[trigger] covers(*a, *b, *c, qx, qy) implies holds(
                        fragments@,
                        qx,
                        qy,
                    ) by {
                        lemma_holds_push(before, f, qx, qy);
                    }
                    assert forall|i: int, j: int| 0 <= i < j < fragments.len() implies reads_before(
                        #[trigger] fragments[i],
                        #[trigger] fragments[j],
                    ) by {
                        if j < before.len() {
                            assert(fragments[i] == before[i] && fragments[j] == before[j]);
                        } else {
                            assert(fragments[i] == before[i]);
                        }
                    }
                }
            }
            x += 1;
        }
        y += 1;
    }
    proof {
        assert forall|qx: int, qy: int|
            0 <= qx < width && 0 <= qy < height && #[trigger] covers(*a, *b, *c, qx, qy) implies holds(
            fragments@,
            qx,
            qy,
        ) by {
            lemma_covered_in_box(*a, *b, *c, qx, qy);
            assert(first_x <= qx <= last_x);
            assert(first_y <= qy <= last_y);
        }
    }
    fragments
}

/// Whether the triangles are what a stream of `count` vertices makes: one
/// for every three vertices in a row, in the order of the stream. One or
/// two vertices left over at the end make none.
pub open spec fn is_assembly(triangles: Seq<Triangle>, count: int) -> bool {
    &&& triangles.len() == count / 3
    &&& forall|k: int|
        0 <= k < triangles.len() ==> (#[trigger] triangles[k]) == (Triangle {
            a: (3 * k) as usize,
            b: (3 * k + 1) as usize,
            c: (3 * k + 2) as usize,
        })
}

/// Primitive assembly: groups a stream of `count` vertices into triangles.
pub fn assemble(count: usize) -> (triangles: Vec<Triangle>)
    ensures
        is_assembly(triangles@, count as int),
{
    let mut triangles: Vec<Triangle> = Vec::new();
    let mut i: usize = 0;
    while count - i >= 3
        invariant
            i <= count,
            i % 3 == 0,
            triangles.len() == i / 3,
            forall|k: int|
                0 <= k < triangles.len() ==> (#[trigger] triangles[k]) == (Triangle {
                    a: (3 * k) as usize,
                    b: (3 * k + 1) as usize,
                    c: (3 * k + 2) as usize,
                }),
        decreases count - i,
    {
        triangles.push(Triangle { a: i, b: i + 1, c: i + 2 });
        i += 3;
    }
    triangles
}

/// Whether `coverage` is what a mesh gives on a frame of the given size:
/// for each triangle of the mesh, in the order of the stream, the
/// fragments of that triangle.
pub open spec fn is_mesh_coverage(
    coverage: Seq<Vec<Fragment>>,
    points: Seq<ScreenPoint>,
    width: int,
    height: int,
) -> bool {
    &&& coverage.len() == points.len() / 3
    &&& forall|k: int|
        0 <= k < coverage.len() ==> is_coverage(
            (#[trigger] coverage[k])@,
            points[3 * k],
            points[3 * k + 1],
            points[3 * k + 2],
            width,
            height,
        )
}

/// Assembles the vertices of a mesh, given by their places on the screen,
/// into triangles and converts each of them.
pub fn rasterize(points: &Vec<ScreenPoint>, width: usize, height: usize) -> (coverage: Vec<
    Vec<Fragment>,
>)
    ensures
        is_mesh_coverage(coverage@, points@, width as int, height as int),
{
    let triangles = assemble(points.len());
    let mut coverage: Vec<Vec<Fragment>> = Vec::new();
    let mut k: usize = 0;
    while k < triangles.len()
        invariant
            k <= triangles.len(),
            is_assembly(triangles@, points.len() as int),
            coverage.len() == k,
            forall|j: int|
                0 <= j < coverage.len() ==> is_coverage(
                    (#[trigger] coverage[j])@,
                    points[3 * j],
                    points[3 * j + 1],
                    points[3 * j + 2],
                    width as int,
                    height as int,
                ),
        decreases triangles.len() - k,
    {
        let t = triangles[k];
        let fragments = triangle(&points[t.a], &points[t.b], &points[t.c], width, height);
        coverage.push(fragments);
        k += 1;
    }
    coverage
}

} // verus!
