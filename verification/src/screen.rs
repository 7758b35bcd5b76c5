//! The virtual screen that spans all monitors, which the overlay window covers
//! so that the agent can follow the terminal across screens.

use vstd::prelude::*;

verus! {

/// A monitor's position and size.
pub struct MonitorRect {
    pub x: i32,
    pub y: i32,
    pub width: u32,
    pub height: u32,
}

/// The rectangle spanning all monitors.
pub struct VirtualScreen {
    pub x: i32,
    pub y: i32,
    pub width: u32,
    pub height: u32,
}

/// A monitor coordinate or span would leave the range of `i32`.
pub struct CoordinateOverflow;

/// A size taken as an `i32`, as the cast `size as i32` does (sizes above
/// `i32::MAX` wrap to negative values).
pub open spec fn size_as_i32(w: u32) -> int {
    if w <= i32::MAX { w as int } else { w - 0x1_0000_0000 }
}

/// A non-negative or negative `i32` value taken as a `u32`, as the cast
/// `value as u32` does.
pub open spec fn i32_as_u32(d: int) -> int {
    if d >= 0 { d } else { d + 0x1_0000_0000 }
}

/// The right edge of a monitor.
pub open spec fn right_edge(m: MonitorRect) -> int {
    m.x + size_as_i32(m.width)
}

/// The bottom edge of a monitor.
pub open spec fn bottom_edge(m: MonitorRect) -> int {
    m.y + size_as_i32(m.height)
}

/// The smaller of two integers.
pub open spec fn min_int(a: int, b: int) -> int {
    if a <= b { a } else { b }
}

/// The larger of two integers.
pub open spec fn max_int(a: int, b: int) -> int {
    if a >= b { a } else { b }
}

/// The leftmost left edge (`i32::MAX` for no monitors).
pub open spec fn min_left(s: Seq<MonitorRect>) -> int
    decreases s.len(),
{
    if s.len() == 0 { i32::MAX as int } else { min_int(min_left(s.drop_last()), s.last().x as int) }
}

/// The topmost top edge (`i32::MAX` for no monitors).
pub open spec fn min_top(s: Seq<MonitorRect>) -> int
    decreases s.len(),
{
    if s.len() == 0 { i32::MAX as int } else { min_int(min_top(s.drop_last()), s.last().y as int) }
}

/// The rightmost right edge (`i32::MIN` for no monitors).
pub open spec fn max_right(s: Seq<MonitorRect>) -> int
    decreases s.len(),
{
    if s.len() == 0 { i32::MIN as int } else { max_int(max_right(s.drop_last()), right_edge(s.last())) }
}

/// The lowest bottom edge (`i32::MIN` for no monitors).
pub open spec fn max_bottom(s: Seq<MonitorRect>) -> int
    decreases s.len(),
{
    if s.len() == 0 {
        i32::MIN as int
    } else {
        max_int(max_bottom(s.drop_last()), bottom_edge(s.last()))
    }
}

/// Whether `v` is in the range of `i32`.
pub open spec fn in_i32(v: int) -> bool {
    i32::MIN <= v <= i32::MAX
}

/// Whether the spanning rectangle of `s` can be computed in `i32`: every
/// monitor's right and bottom edge, and the width and height of the span.
pub open spec fn span_fits(s: Seq<MonitorRect>) -> bool {
    &&& forall|i: int| 0 <= i < s.len() ==> in_i32(right_edge(#[trigger] s[i])) && in_i32(
        bottom_edge(s[i]),
    )
    &&& in_i32(max_right(s) - min_left(s))
    &&& in_i32(max_bottom(s) - min_top(s))
}

/// The rectangle spanning the monitors `s`.
pub open spec fn spanning_rect(s: Seq<MonitorRect>) -> VirtualScreen {
    VirtualScreen {
        x: min_left(s) as i32,
        y: min_top(s) as i32,
        width: i32_as_u32(max_right(s) - min_left(s)) as u32,
        height: i32_as_u32(max_bottom(s) - min_top(s)) as u32,
    }
}

/// `size_as_i32` computed in `i64`.
fn size_to_i64(w: u32) -> (r: i64)
    ensures
        r == size_as_i32(w),
{
    if w <= 0x7fff_ffff {
        w as i64
    } else {
        w as i64 - 0x1_0000_0000
    }
}

/// `i32_as_u32` of a span that fits in `i32`.
fn span_to_u32(d: i64) -> (r: u32)
    requires
        in_i32(d as int),
    ensures
        r == i32_as_u32(d as int),
{
    if d >= 0 {
        d as u32
    } else {
        (d + 0x1_0000_0000) as u32
    }
}

/// The rectangle spanning all `monitors`, or `None` when there are none.
/// Fails exactly where an edge or the span leaves the range of `i32`.
pub fn virtual_screen(monitors: &Vec<MonitorRect>) -> (r: Result<
    Option<VirtualScreen>,
    CoordinateOverflow,
>)
    ensures
        monitors@.len() == 0 ==> r matches Ok(None),
        monitors@.len() > 0 && span_fits(monitors@) ==> r == Ok::<
            Option<VirtualScreen>,
            CoordinateOverflow,
        >(Some(spanning_rect(monitors@))),
        monitors@.len() > 0 && !span_fits(monitors@) ==> r is Err,
{
    if monitors.len() == 0 {
        return Ok(None);
    }
    let ghost s = monitors@;
    let mut min_x: i32 = i32::MAX;
    let mut min_y: i32 = i32::MAX;
    let mut max_x: i32 = i32::MIN;
    let mut max_y: i32 = i32::MIN;
    let mut i: usize = 0;
    while i < monitors.len()
        invariant
            s == monitors@,
            i <= s.len(),
            min_x == min_left(s.take(i as int)),
            min_y == min_top(s.take(i as int)),
            max_x == max_right(s.take(i as int)),
            max_y == max_bottom(s.take(i as int)),
            forall|j: int| 0 <= j < i ==> in_i32(right_edge(#[trigger] s[j])) && in_i32(
                bottom_edge(s[j]),
            ),
        decreases s.len() - i,
    {
        let m = &monitors[i];
        assert(s.take(i + 1).drop_last() =~= s.take(i as int));
        assert(s.take(i + 1).last() == s[i as int]);
        let right = m.x as i64 + size_to_i64(m.width);
        let bottom = m.y as i64 + size_to_i64(m.height);
        if right < i32::MIN as i64 || right > i32::MAX as i64 || bottom < i32::MIN as i64 || bottom
            > i32::MAX as i64 {
            return Err(CoordinateOverflow);
        }
        let right = right as i32;
        let bottom = bottom as i32;
        if m.x < min_x {
            min_x = m.x;
        }
        if m.y < min_y {
            min_y = m.y;
        }
        if right > max_x {
            max_x = right;
        }
        if bottom > max_y {
            max_y = bottom;
        }
        i = i + 1;
    }
    assert(s.take(s.len() as int) =~= s);
    let span_x = max_x as i64 - min_x as i64;
    let span_y = max_y as i64 - min_y as i64;
    if span_x < i32::MIN as i64 || span_x > i32::MAX as i64 || span_y < i32::MIN as i64 || span_y
        > i32::MAX as i64 {
        return Err(CoordinateOverflow);
    }
    Ok(Some(VirtualScreen { x: min_x, y: min_y, width: span_to_u32(span_x), height: span_to_u32(span_y) }))
}


/// Each extreme bounds every monitor's edge and, for monitors, is some monitor's edge.
proof fn lemma_extremes(s: Seq<MonitorRect>)
    requires
        forall|i: int| 0 <= i < s.len() ==> in_i32(right_edge(#[trigger] s[i])) && in_i32(
            bottom_edge(s[i]),
        ),
    ensures
        forall|i: int| 0 <= i < s.len() ==> min_left(s) <= #[trigger] s[i].x && min_top(s) <= s[i].y
            && max_right(s) >= right_edge(s[i]) && max_bottom(s) >= bottom_edge(s[i]),
        s.len() > 0 ==> exists|i: int| 0 <= i < s.len() && min_left(s) == #[trigger] s[i].x,
        s.len() > 0 ==> exists|i: int| 0 <= i < s.len() && min_top(s) == #[trigger] s[i].y,
        s.len() > 0 ==> exists|i: int| 0 <= i < s.len() && max_right(s) == right_edge(#[trigger] s[i]),
        s.len() > 0 ==> exists|i: int| 0 <= i < s.len() && max_bottom(s) == bottom_edge(#[trigger] s[i]),
    decreases s.len(),
{
    if s.len() > 0 {
        let t = s.drop_last();
        assert forall|i: int| 0 <= i < t.len() implies in_i32(right_edge(#[trigger] t[i])) && in_i32(
            bottom_edge(t[i]),
        ) by {
            assert(t[i] == s[i]);
        }
        lemma_extremes(t);
        let n = s.len() - 1;
        assert forall|i: int| 0 <= i < s.len() implies min_left(s) <= #[trigger] s[i].x && min_top(s)
            <= s[i].y && max_right(s) >= right_edge(s[i]) && max_bottom(s) >= bottom_edge(s[i]) by {
            if i < n {
                assert(t[i] == s[i]);
            }
        }
        assert(s[n] == s.last());
        assert(in_i32(right_edge(s[n])) && in_i32(bottom_edge(s[n])));
        if t.len() == 0 {
            assert(min_left(t) == i32::MAX && min_top(t) == i32::MAX);
            assert(max_right(t) == i32::MIN && max_bottom(t) == i32::MIN);
            assert(min_left(s) == s[n].x);
            assert(min_top(s) == s[n].y);
            assert(max_right(s) == right_edge(s[n]));
            assert(max_bottom(s) == bottom_edge(s[n]));
        } else {
            if min_left(s) != s[n].x {
                let k = choose|k: int| 0 <= k < t.len() && min_left(t) == #[trigger] t[k].x;
                assert(s[k] == t[k]);
                assert(min_left(s) == s[k].x);
            } else {
                assert(min_left(s) == s[n].x);
            }
            if min_top(s) != s[n].y {
                let k = choose|k: int| 0 <= k < t.len() && min_top(t) == #[trigger] t[k].y;
                assert(s[k] == t[k]);
                assert(min_top(s) == s[k].y);
            } else {
                assert(min_top(s) == s[n].y);
            }
            if max_right(s) != right_edge(s[n]) {
                let k = choose|k: int| 0 <= k < t.len() && max_right(t) == right_edge(#[trigger] t[k]);
                assert(s[k] == t[k]);
                assert(max_right(s) == right_edge(s[k]));
            } else {
                assert(max_right(s) == right_edge(s[n]));
            }
            if max_bottom(s) != bottom_edge(s[n]) {
                let k = choose|k: int| 0 <= k < t.len() && max_bottom(t) == bottom_edge(#[trigger] t[k]);
                assert(s[k] == t[k]);
                assert(max_bottom(s) == bottom_edge(s[k]));
            } else {
                assert(max_bottom(s) == bottom_edge(s[n]));
            }
        }
    }
}

/// For monitors whose sizes are at most `i32::MAX` (so that no size wraps), the
/// spanning rectangle contains every monitor, and each of its edges is the
/// edge of some monitor.
pub proof fn lemma_spanning_rect_is_tight_bound(s: Seq<MonitorRect>)
    requires
        s.len() > 0,
        span_fits(s),
        forall|i: int| 0 <= i < s.len() ==> (#[trigger] s[i]).width <= i32::MAX && s[i].height
            <= i32::MAX,
    ensures
        forall|i: int| 0 <= i < s.len() ==> {
            &&& spanning_rect(s).x <= (#[trigger] s[i]).x
            &&& spanning_rect(s).y <= s[i].y
            &&& s[i].x + s[i].width <= spanning_rect(s).x + spanning_rect(s).width
            &&& s[i].y + s[i].height <= spanning_rect(s).y + spanning_rect(s).height
        },
        exists|i: int| 0 <= i < s.len() && spanning_rect(s).x == (#[trigger] s[i]).x,
        exists|i: int| 0 <= i < s.len() && spanning_rect(s).y == (#[trigger] s[i]).y,
        exists|i: int| 0 <= i < s.len() && spanning_rect(s).x + spanning_rect(s).width == (
        #[trigger] s[i]).x + s[i].width,
        exists|i: int| 0 <= i < s.len() && spanning_rect(s).y + spanning_rect(s).height == (
        #[trigger] s[i]).y + s[i].height,
{
    lemma_extremes(s);
    assert(s[0].x >= min_left(s));
    assert(max_right(s) >= right_edge(s[0]));
    assert(max_right(s) - min_left(s) >= 0);
    assert(max_bottom(s) - min_top(s) >= 0);
    let k = choose|i: int| 0 <= i < s.len() && max_right(s) == right_edge(#[trigger] s[i]);
    assert(spanning_rect(s).x + spanning_rect(s).width == s[k].x + s[k].width);
    let l = choose|i: int| 0 <= i < s.len() && max_bottom(s) == bottom_edge(#[trigger] s[i]);
    assert(spanning_rect(s).y + spanning_rect(s).height == s[l].y + s[l].height);
}

/// Whether a monitor lies within 2^29 pixels of the origin on each axis, with a
/// size of at most 2^29 pixels: any realistic monitor, on either side of the
/// primary one.
pub open spec fn moderate_monitor(m: MonitorRect) -> bool {
    &&& -0x2000_0000 <= m.x <= 0x2000_0000
    &&& -0x2000_0000 <= m.y <= 0x2000_0000
    &&& m.width <= 0x2000_0000
    &&& m.height <= 0x2000_0000
}

/// Any non-empty list of such monitors, negative coordinates included, has a
/// spanning rectangle: `virtual_screen` succeeds on it and gives the rectangle
/// from the leftmost and topmost edge to the rightmost and lowest edge.
pub proof fn lemma_moderate_monitors_span(s: Seq<MonitorRect>)
    requires
        s.len() > 0,
        forall|i: int| 0 <= i < s.len() ==> moderate_monitor(#[trigger] s[i]),
    ensures
        span_fits(s),
        spanning_rect(s).x == min_left(s),
        spanning_rect(s).y == min_top(s),
        spanning_rect(s).width == max_right(s) - min_left(s),
        spanning_rect(s).height == max_bottom(s) - min_top(s),
{
    assert forall|i: int| 0 <= i < s.len() implies in_i32(right_edge(#[trigger] s[i])) && in_i32(
        bottom_edge(s[i]),
    ) by {
        assert(moderate_monitor(s[i]));
    }
    lemma_extremes(s);
    let a = choose|i: int| 0 <= i < s.len() && min_left(s) == #[trigger] s[i].x;
    let b = choose|i: int| 0 <= i < s.len() && min_top(s) == #[trigger] s[i].y;
    let c = choose|i: int| 0 <= i < s.len() && max_right(s) == right_edge(#[trigger] s[i]);
    let d = choose|i: int| 0 <= i < s.len() && max_bottom(s) == bottom_edge(#[trigger] s[i]);
    assert(moderate_monitor(s[a]) && moderate_monitor(s[b]) && moderate_monitor(s[c]) && moderate_monitor(s[d]));
    assert(moderate_monitor(s[0]));
    assert(min_left(s) <= s[0].x && max_right(s) >= right_edge(s[0]));
    assert(min_top(s) <= s[0].y && max_bottom(s) >= bottom_edge(s[0]));
}

} // verus!
