//! Client damage and surface geometry of committed buffers.
use vstd::prelude::*;

verus! {

/// A rectangle in buffer coordinates.
#[derive(Debug, Clone, Copy, PartialEq, Eq, Structural)]
pub struct Rect {
    pub x: i32,
    pub y: i32,
    pub w: i32,
    pub h: i32,
}

/// Where a span ends; the coordinate range has no room past its end.
pub open spec fn span_end(at: i32, len: i32) -> int {
    if at + len > i32::MAX {
        i32::MAX as int
    } else {
        at + len
    }
}

pub open spec fn least(a: int, b: int) -> int {
    if a < b {
        a
    } else {
        b
    }
}

pub open spec fn greatest(a: int, b: int) -> int {
    if a > b {
        a
    } else {
        b
    }
}

/// Whether two rectangles overlap; touching is not enough.
pub open spec fn rects_overlap(a: Rect, b: Rect) -> bool {
    &&& a.x < span_end(b.x, b.w)
    &&& b.x < span_end(a.x, a.w)
    &&& a.y < span_end(b.y, b.h)
    &&& b.y < span_end(a.y, a.h)
}

/// The area two rectangles share.
pub open spec fn shared_area(a: Rect, b: Rect) -> Option<Rect> {
    if rects_overlap(a, b) {
        let x = greatest(a.x as int, b.x as int);
        let y = greatest(a.y as int, b.y as int);
        Some(
            Rect {
                x: x as i32,
                y: y as i32,
                w: (least(span_end(a.x, a.w), span_end(b.x, b.w)) - x) as i32,
                h: (least(span_end(a.y, a.h), span_end(b.y, b.h)) - y) as i32,
            },
        )
    } else {
        None
    }
}

fn end_of(at: i32, len: i32) -> (r: i32)
    requires
        len >= 0,
    ensures
        r == span_end(at, len),
{
    if at > i32::MAX - len {
        i32::MAX
    } else {
        at + len
    }
}

/// The area two rectangles share, if they overlap.
fn intersection(a: Rect, b: Rect) -> (r: Option<Rect>)
    requires
        a.w >= 0,
        a.h >= 0,
        b.w >= 0,
        b.h >= 0,
    ensures
        r == shared_area(a, b),
{
    let a_right: i32 = end_of(a.x, a.w);
    let a_bottom: i32 = end_of(a.y, a.h);
    let b_right: i32 = end_of(b.x, b.w);
    let b_bottom: i32 = end_of(b.y, b.h);
    if !(a.x < b_right && b.x < a_right && a.y < b_bottom && b.y < a_bottom) {
        return None;
    }
    let x: i32 = if a.x > b.x {
        a.x
    } else {
        b.x
    };
    let y: i32 = if a.y > b.y {
        a.y
    } else {
        b.y
    };
    let right: i32 = if a_right < b_right {
        a_right
    } else {
        b_right
    };
    let bottom: i32 = if a_bottom < b_bottom {
        a_bottom
    } else {
        b_bottom
    };
    Some(Rect { x, y, w: right - x, h: bottom - y })
}

/// The part of a damage rectangle within a buffer, if there is any.
pub open spec fn within_buffer(r: Rect, size: (i32, i32)) -> Option<Rect> {
    match shared_area(r, Rect { x: 0, y: 0, w: size.0, h: size.1 }) {
        Some(o) if o.w > 0 && o.h > 0 => Some(o),
        _ => None,
    }
}

/// The parts of the first `n` damage rectangles within a buffer.
pub open spec fn damage_within(damage: Seq<Rect>, size: (i32, i32), n: int) -> Seq<Rect>
    decreases n,
{
    if n <= 0 {
        Seq::empty()
    } else {
        match within_buffer(damage[n - 1], size) {
            Some(o) => damage_within(damage, size, n - 1).push(o),
            None => damage_within(damage, size, n - 1),
        }
    }
}

/// Clamp client damage rectangles to the committed buffer. Damage beyond
/// the buffer is clamped or dropped; with no known size there is none,
/// which means a full upload.
pub fn sanitize_damage(damage: &Vec<Rect>, last_size: Option<(i32, i32)>) -> (r: Vec<Rect>)
    requires
        forall|i: int|
            0 <= i < damage@.len() ==> (#[trigger] damage@[i]).w >= 0 && damage@[i].h >= 0,
        last_size matches Some(s) ==> s.0 >= 0 && s.1 >= 0,
    ensures
        r@ == match last_size {
            Some(s) => damage_within(damage@, s, damage@.len() as int),
            None => Seq::empty(),
        },
{
    let mut out: Vec<Rect> = Vec::new();
    match last_size {
        None => out,
        Some(size) => {
            let buf = Rect { x: 0, y: 0, w: size.0, h: size.1 };
            let mut i: usize = 0;
            while i < damage.len()
                invariant
                    i <= damage@.len(),
                    forall|k: int|
                        0 <= k < damage@.len() ==> (#[trigger] damage@[k]).w >= 0 && damage@[k].h
                            >= 0,
                    size.0 >= 0,
                    size.1 >= 0,
                    buf == (Rect { x: 0, y: 0, w: size.0, h: size.1 }),
                    out@ == damage_within(damage@, size, i as int),
                decreases damage@.len() - i,
            {
                if let Some(o) = intersection(damage[i], buf) {
                    if o.w > 0 && o.h > 0 {
                        out.push(o);
                    }
                }
                i = i + 1;
            }
            out
        },
    }
}

/// Damage that lies within the buffer and is not empty.
pub open spec fn fits_buffer(r: Rect, size: (i32, i32)) -> bool {
    &&& 0 <= r.x
    &&& 0 <= r.y
    &&& r.w > 0
    &&& r.h > 0
    &&& r.x + r.w <= size.0
    &&& r.y + r.h <= size.1
}

/// Whatever a client reports, the damage that is kept lies within the
/// buffer and is not empty.
pub proof fn law_kept_damage_fits(damage: Seq<Rect>, size: (i32, i32), n: int, i: int)
    requires
        0 <= n <= damage.len(),
        forall|k: int| 0 <= k < damage.len() ==> (#[trigger] damage[k]).w >= 0 && damage[k].h >= 0,
        size.0 >= 0,
        size.1 >= 0,
        0 <= i < damage_within(damage, size, n).len(),
    ensures
        fits_buffer(damage_within(damage, size, n)[i], size),
    decreases n,
{
    if n > 0 && i < damage_within(damage, size, n - 1).len() {
        law_kept_damage_fits(damage, size, n - 1, i);
    }
}

/// Damage that fits the buffer is kept as it is.
pub proof fn law_fitting_damage_is_kept(r: Rect, size: (i32, i32))
    requires
        fits_buffer(r, size),
    ensures
        within_buffer(r, size) == Some(r),
{
}

/// Damage reported in surface coordinates, in buffer coordinates: every
/// side multiplied by the buffer scale, which counts as one if it is less.
pub fn surface_damage(r: Rect, buffer_scale: i32) -> (out: Rect)
    requires
        i32::MIN <= r.x * scale_of(buffer_scale) <= i32::MAX,
        i32::MIN <= r.y * scale_of(buffer_scale) <= i32::MAX,
        i32::MIN <= r.w * scale_of(buffer_scale) <= i32::MAX,
        i32::MIN <= r.h * scale_of(buffer_scale) <= i32::MAX,
    ensures
        out.x == r.x * scale_of(buffer_scale),
        out.y == r.y * scale_of(buffer_scale),
        out.w == r.w * scale_of(buffer_scale),
        out.h == r.h * scale_of(buffer_scale),
{
    let bs: i32 = if buffer_scale > 1 {
        buffer_scale
    } else {
        1
    };
    Rect { x: r.x * bs, y: r.y * bs, w: r.w * bs, h: r.h * bs }
}

/// A buffer scale counts as one if it is less.
pub open spec fn scale_of(buffer_scale: i32) -> int {
    if buffer_scale > 1 {
        buffer_scale as int
    } else {
        1
    }
}

/// A coordinate in 256ths of a pixel, as the protocol transmits it.
pub type Fixed = i32;

/// A viewport source rectangle, in 256ths of a pixel.
#[derive(Debug, Clone, Copy, PartialEq, Eq, Structural)]
pub struct ViewportSource {
    pub x: Fixed,
    pub y: Fixed,
    pub w: Fixed,
    pub h: Fixed,
}

/// The part of a texture that is shown: each edge and side in 256ths of a
/// pixel over the buffer's own, so that dividing gives texture
/// coordinates.
#[derive(Debug, Clone, Copy, PartialEq, Eq, Structural)]
pub struct SourceUv {
    pub source: ViewportSource,
    /// 256 times the buffer width, which counts as one if it is less.
    pub over_w: i64,
    /// 256 times the buffer height, which counts as one if it is less.
    pub over_h: i64,
}

/// The nearest whole number of pixels; halves go away from zero.
pub open spec fn rounded(f: Fixed) -> int {
    if f >= 0 {
        (f + 128) / 256
    } else {
        -((-f + 128) / 256)
    }
}

fn round_fixed(f: Fixed) -> (r: i32)
    ensures
        r == rounded(f),
{
    let wide: i64 = f as i64;
    if wide >= 0 {
        ((wide + 128) / 256) as i32
    } else {
        let up: i64 = (-wide + 128) / 256;
        (-up) as i32
    }
}

/// Division toward zero.
pub open spec fn truncated(a: int, b: int) -> int
    recommends
        b > 0,
{
    if a >= 0 {
        a / b
    } else {
        -((-a) / b)
    }
}

fn divide(a: i32, b: i32) -> (r: i32)
    requires
        b > 0,
    ensures
        r == truncated(a as int, b as int),
{
    let wide: i64 = a as i64;
    let by: i64 = b as i64;
    let r: i64 = if wide >= 0 {
        wide / by
    } else {
        -((-wide) / by)
    };
    proof {
        let m = if wide >= 0 {
            wide as int
        } else {
            -wide as int
        };
        assert(0 <= m / by as int <= m) by (nonlinear_arith)
            requires
                m >= 0,
                by >= 1,
        ;
    }
    r as i32
}

/// The logical size of a surface: the viewport's destination, else the
/// size of its source, else the buffer's size over its scale.
pub open spec fn logical_size(
    buf: (i32, i32),
    buffer_scale: i32,
    dst: Option<(i32, i32)>,
    src: Option<ViewportSource>,
) -> (int, int) {
    match (dst, src) {
        (Some(d), _) => (d.0 as int, d.1 as int),
        (None, Some(s)) => (rounded(s.w), rounded(s.h)),
        (None, None) => (
            truncated(buf.0 as int, scale_of(buffer_scale)),
            truncated(buf.1 as int, scale_of(buffer_scale)),
        ),
    }
}

/// The part of a buffer that a viewport source shows.
pub open spec fn crop(buf: (i32, i32), src: Option<ViewportSource>) -> Option<SourceUv> {
    match src {
        Some(s) => Some(
            SourceUv {
                source: s,
                over_w: (256 * greatest(buf.0 as int, 1)) as i64,
                over_h: (256 * greatest(buf.1 as int, 1)) as i64,
            },
        ),
        None => None,
    }
}

/// Logical size of a committed buffer and the part of it that is shown;
/// without a viewport source all of it is.
pub fn logical_geometry_from_buffer(
    buf: (i32, i32),
    buffer_scale: i32,
    viewport_dst: Option<(i32, i32)>,
    viewport_src: Option<ViewportSource>,
) -> (r: ((i32, i32), Option<SourceUv>))
    ensures
        (r.0.0 as int, r.0.1 as int) == logical_size(buf, buffer_scale, viewport_dst, viewport_src),
        r.1 == crop(buf, viewport_src),
        match viewport_src {
            Some(s) => r.1 matches Some(uv) && uv.source == s && uv.over_w == 256 * greatest(
                buf.0 as int,
                1,
            ) && uv.over_h == 256 * greatest(buf.1 as int, 1),
            None => r.1 is None,
        },
{
    let scale: i32 = if buffer_scale > 1 {
        buffer_scale
    } else {
        1
    };
    let size: (i32, i32) = match viewport_dst {
        Some(d) => d,
        None => match viewport_src {
            Some(s) => (round_fixed(s.w), round_fixed(s.h)),
            None => (divide(buf.0, scale), divide(buf.1, scale)),
        },
    };
    let uv = match viewport_src {
        Some(source) => {
            let w: i64 = if buf.0 > 1 {
                buf.0 as i64
            } else {
                1
            };
            let h: i64 = if buf.1 > 1 {
                buf.1 as i64
            } else {
                1
            };
            Some(SourceUv { source, over_w: 256 * w, over_h: 256 * h })
        },
        None => None,
    };
    (size, uv)
}

/// The pixel lies in the rectangle; the coordinate range has no pixel at
/// its end.
pub open spec fn has_pixel(r: Rect, x: int, y: int) -> bool {
    &&& 0 <= x - r.x < r.w
    &&& 0 <= y - r.y < r.h
    &&& x < i32::MAX
    &&& y < i32::MAX
}

/// Two rectangles share exactly the pixels that lie in both.
pub proof fn law_shared_area_is_where_both_are(a: Rect, b: Rect, x: int, y: int)
    requires
        a.w >= 0,
        a.h >= 0,
        b.w >= 0,
        b.h >= 0,
        i32::MIN <= x <= i32::MAX,
        i32::MIN <= y <= i32::MAX,
        a.x >= 0 || b.x >= 0,
        a.y >= 0 || b.y >= 0,
    ensures
        has_pixel(a, x, y) && has_pixel(b, x, y) <==> (shared_area(a, b) matches Some(o)
            && has_pixel(o, x, y)),
{
}

/// The damage that is kept has exactly the pixels of the buffer that the
/// client reported.
pub proof fn law_kept_damage_is_what_was_reported(
    damage: Seq<Rect>,
    size: (i32, i32),
    n: int,
    x: int,
    y: int,
)
    requires
        0 <= n <= damage.len(),
        forall|k: int| 0 <= k < damage.len() ==> (#[trigger] damage[k]).w >= 0 && damage[k].h >= 0,
        size.0 >= 0,
        size.1 >= 0,
    ensures
        (exists|i: int|
            0 <= i < damage_within(damage, size, n).len() && has_pixel(
                #[trigger] damage_within(damage, size, n)[i],
                x,
                y,
            )) <==> 0 <= x < size.0 && 0 <= y < size.1 && exists|k: int|
            0 <= k < n && has_pixel(#[trigger] damage[k], x, y),
    decreases n,
{
    if n > 0 {
        law_kept_damage_is_what_was_reported(damage, size, n - 1, x, y);
        let before = damage_within(damage, size, n - 1);
        let all = damage_within(damage, size, n);
        let d = damage[n - 1];
        let buffer = Rect { x: 0, y: 0, w: size.0, h: size.1 };
        assert(has_pixel(buffer, x, y) ==> 0 <= x < size.0 && 0 <= y < size.1);
        let inside = 0 <= x < size.0 && 0 <= y < size.1;
        if inside && has_pixel(d, x, y) {
            law_shared_area_is_where_both_are(d, buffer, x, y);
            assert(has_pixel(all[all.len() - 1], x, y));
        }
        if inside && (exists|k: int| 0 <= k < n - 1 && has_pixel(#[trigger] damage[k], x, y)) {
            let i = choose|i: int| 0 <= i < before.len() && has_pixel(#[trigger] before[i], x, y);
            assert(all[i] == before[i]);
        }
        if exists|i: int| 0 <= i < all.len() && has_pixel(#[trigger] all[i], x, y) {
            let i = choose|i: int| 0 <= i < all.len() && has_pixel(#[trigger] all[i], x, y);
            if i < before.len() {
                assert(all[i] == before[i]);
            } else {
                law_shared_area_is_where_both_are(d, buffer, x, y);
                assert(has_pixel(damage[n - 1], x, y));
            }
        }
    }
}

} // verus!
