//! Layout math for notification placement.
//!
//! A stack of notifications grows away from the configured origin (9
//! positions), inset by `offset`, spaced by `gap_size`. Sizes come from the
//! dunstrc `width`/`height` specs clamped around the content's natural size.
//! All coordinates are logical pixels.

use vstd::prelude::*;
use crate::config::{Origin, SizeSpec, SizeSpecView};

verus! {

/// Logical geometry of a monitor.
#[derive(Debug, Clone, Copy, PartialEq, Eq, Structural)]
pub struct MonitorGeometry {
    pub x: i32,
    pub y: i32,
    pub width: i32,
    pub height: i32,
}

/// Final geometry of one notification window (logical pixels).
#[derive(Debug, Clone, Copy, PartialEq, Eq, Structural)]
pub struct Placement {
    pub x: i32,
    pub y: i32,
    pub width: i32,
    pub height: i32,
}

pub open spec fn fits_i32(v: int) -> bool {
    i32::MIN <= v <= i32::MAX
}

/// Whether a size spec can be applied: a range whose effective lower bound
/// exceeds its effective upper bound is rejected (`i32::clamp` panics).
pub open spec fn size_spec_valid(spec: SizeSpecView) -> bool {
    match spec {
        SizeSpecView::Range(min, max) => (if min < 0 {
            0
        } else {
            min
        }) <= (if max <= 0 {
            i32::MAX
        } else {
            max
        }),
        _ => true,
    }
}

/// The size a spec gives a dimension whose natural size is `natural`:
/// `Constant(w)` with `w > 0` is fixed, other constants keep the natural
/// size, `Range(min, max)` clamps the natural size (0 = unbounded side).
/// Percentages are a fraction of the monitor computed by the window layer,
/// so they give `None` here.
pub open spec fn resolve_size_spec(spec: SizeSpecView, natural: i32) -> Option<i32> {
    match spec {
        SizeSpecView::Constant(w) => Some(
            if w <= 0 {
                natural
            } else {
                w
            },
        ),
        SizeSpecView::Range(min, max) => {
            let lo = if min < 0 {
                0
            } else {
                min
            };
            let hi = if max <= 0 {
                i32::MAX
            } else {
                max
            };
            Some(
                if natural < lo {
                    lo
                } else if natural > hi {
                    hi
                } else {
                    natural
                },
            )
        },
        SizeSpecView::Percent(_) => None,
    }
}

/// Applies a dunstrc size spec to a natural content size (see
/// [`resolve_size_spec`]); `monitor_extent` is the monitor's extent along the
/// same axis, the base of a percentage.
pub fn resolve_size(spec: &SizeSpec, natural: i32, monitor_extent: i32) -> (r: Option<i32>)
    requires
        size_spec_valid(spec@),
    ensures
        r == resolve_size_spec(spec@, natural),
{
    match spec {
        SizeSpec::Constant(w) => Some(
            if *w <= 0 {
                natural
            } else {
                *w
            },
        ),
        SizeSpec::Range(min, max) => {
            let lo = if *min < 0 {
                0
            } else {
                *min
            };
            let hi = if *max <= 0 {
                i32::MAX
            } else {
                *max
            };
            Some(
                if natural < lo {
                    lo
                } else if natural > hi {
                    hi
                } else {
                    natural
                },
            )
        },
        SizeSpec::Percent(_) => None,
    }
}

/// Sum of the widths of the first `k` entries.
pub open spec fn sum_w(s: Seq<(i32, i32)>, k: int) -> int
    decreases k,
{
    if k <= 0 {
        0
    } else {
        sum_w(s, k - 1) + s[k - 1].0
    }
}

/// Sum of the heights of the first `k` entries.
pub open spec fn sum_h(s: Seq<(i32, i32)>, k: int) -> int
    decreases k,
{
    if k <= 0 {
        0
    } else {
        sum_h(s, k - 1) + s[k - 1].1
    }
}

/// Division by two rounding toward zero, as Rust's `/` does.
pub open spec fn half(v: int) -> int {
    if v >= 0 {
        v / 2
    } else {
        -((-v) / 2)
    }
}

pub open spec fn gap_of(gap: i32) -> int {
    if gap < 0 {
        0
    } else {
        gap as int
    }
}

/// Number of gaps in a stack of `len` entries, as an `i32` (`(n - 1) as i32`
/// with `n` at least 1).
pub open spec fn gap_count(len: int) -> int {
    (if len < 1 {
        0
    } else {
        len - 1
    }) as i32 as int
}

/// Width of the whole stack: all widths and the gaps between them.
pub open spec fn total_w(stack: Seq<(i32, i32)>, gap: i32) -> int {
    sum_w(stack, stack.len() as int) + gap_of(gap) * gap_count(stack.len() as int)
}

pub open spec fn total_h(stack: Seq<(i32, i32)>, gap: i32) -> int {
    sum_h(stack, stack.len() as int) + gap_of(gap) * gap_count(stack.len() as int)
}

/// Width taken by the entries before `index`, gaps included.
pub open spec fn before_w(stack: Seq<(i32, i32)>, gap: i32, index: int) -> int {
    sum_w(stack, index) + gap_of(gap) * (index as i32 as int)
}

pub open spec fn before_h(stack: Seq<(i32, i32)>, gap: i32, index: int) -> int {
    sum_h(stack, index) + gap_of(gap) * (index as i32 as int)
}

pub open spec fn is_left_corner(o: Origin) -> bool {
    o == Origin::TopLeft || o == Origin::BottomLeft
}

pub open spec fn is_right_corner(o: Origin) -> bool {
    o == Origin::TopRight || o == Origin::BottomRight
}

pub open spec fn is_top(o: Origin) -> bool {
    o == Origin::TopLeft || o == Origin::TopCenter || o == Origin::TopRight
}

pub open spec fn is_bottom(o: Origin) -> bool {
    o == Origin::BottomLeft || o == Origin::BottomCenter || o == Origin::BottomRight
}

pub open spec fn is_middle_row(o: Origin) -> bool {
    o == Origin::Left || o == Origin::Right || o == Origin::Center
}

/// Horizontal position of entry `index`: corners align the entries on the
/// offset edge, top/bottom centers center each entry, `Left`/`Right` grow
/// the stack horizontally, `Center` centers the whole stack.
pub open spec fn stack_x(
    origin: Origin,
    offset: (i32, i32),
    gap: i32,
    m: MonitorGeometry,
    stack: Seq<(i32, i32)>,
    index: int,
) -> int {
    let w = stack[index].0 as int;
    let ox = offset.0 as int;
    match origin {
        Origin::TopLeft | Origin::BottomLeft => m.x + ox,
        Origin::TopRight | Origin::BottomRight => m.x + m.width - ox - w,
        Origin::TopCenter | Origin::BottomCenter => m.x + half(m.width - w),
        Origin::Left => m.x + ox + before_w(stack, gap, index),
        Origin::Right => m.x + m.width - ox - w - before_w(stack, gap, index),
        Origin::Center => m.x + half(m.width - total_w(stack, gap)) + before_w(stack, gap, index),
    }
}

/// Vertical position of entry `index`: top origins grow downward, bottom
/// origins upward, the middle row centers the whole stack vertically.
pub open spec fn stack_y(
    origin: Origin,
    offset: (i32, i32),
    gap: i32,
    m: MonitorGeometry,
    stack: Seq<(i32, i32)>,
    index: int,
) -> int {
    let h = stack[index].1 as int;
    let oy = offset.1 as int;
    if is_top(origin) {
        m.y + oy + before_h(stack, gap, index)
    } else if is_bottom(origin) {
        m.y + m.height - oy - h - before_h(stack, gap, index)
    } else {
        m.y + half(m.height - total_h(stack, gap)) + before_h(stack, gap, index)
    }
}

/// Every intermediate value of the computation stays within `i32` (where
/// it would not, the computation overflows).
pub open spec fn stack_position_defined(
    origin: Origin,
    offset: (i32, i32),
    gap: i32,
    m: MonitorGeometry,
    stack: Seq<(i32, i32)>,
    index: int,
) -> bool {
    let w = stack[index].0 as int;
    let h = stack[index].1 as int;
    let ox = offset.0 as int;
    let oy = offset.1 as int;
    let g = gap_of(gap);
    let n = stack.len() as int;
    &&& 0 <= index < n
    &&& forall|k: int| 0 <= k <= n ==> fits_i32(#[trigger] sum_w(stack, k))
    &&& forall|k: int| 0 <= k <= n ==> fits_i32(#[trigger] sum_h(stack, k))
    &&& fits_i32(g * gap_count(n))
    &&& fits_i32(total_w(stack, gap))
    &&& fits_i32(total_h(stack, gap))
    &&& fits_i32(g * (index as i32 as int))
    &&& fits_i32(before_w(stack, gap, index))
    &&& fits_i32(before_h(stack, gap, index))
    &&& match origin {
        Origin::TopLeft | Origin::BottomLeft => fits_i32(m.x + ox),
        Origin::TopRight | Origin::BottomRight => fits_i32(m.x + m.width) && fits_i32(
            m.x + m.width - ox,
        ) && fits_i32(m.x + m.width - ox - w),
        Origin::TopCenter | Origin::BottomCenter => fits_i32(m.width - w) && fits_i32(
            m.x + half(m.width - w),
        ),
        Origin::Left => fits_i32(m.x + ox) && fits_i32(m.x + ox + before_w(stack, gap, index)),
        Origin::Right => fits_i32(m.x + m.width) && fits_i32(m.x + m.width - ox) && fits_i32(
            m.x + m.width - ox - w,
        ) && fits_i32(m.x + m.width - ox - w - before_w(stack, gap, index)),
        Origin::Center => fits_i32(m.width - total_w(stack, gap)) && fits_i32(
            m.x + half(m.width - total_w(stack, gap)),
        ) && fits_i32(m.x + half(m.width - total_w(stack, gap)) + before_w(stack, gap, index)),
    }
    &&& if is_top(origin) {
        fits_i32(m.y + oy) && fits_i32(m.y + oy + before_h(stack, gap, index))
    } else if is_bottom(origin) {
        fits_i32(m.y + m.height) && fits_i32(m.y + m.height - oy) && fits_i32(
            m.y + m.height - oy - h,
        ) && fits_i32(m.y + m.height - oy - h - before_h(stack, gap, index))
    } else {
        fits_i32(m.height - total_h(stack, gap)) && fits_i32(
            m.y + half(m.height - total_h(stack, gap)),
        ) && fits_i32(m.y + half(m.height - total_h(stack, gap)) + before_h(stack, gap, index))
    }
}

fn half_i32(v: i32) -> (r: i32)
    ensures
        r == half(v as int),
{
    let w = v as i64;
    let h = if w >= 0 {
        w / 2
    } else {
        -((-w) / 2)
    };
    h as i32
}

/// Sums of the widths and heights of `stack[..k]`.
fn sums(stack: &[(i32, i32)], k: usize, n: usize) -> (r: (i32, i32))
    requires
        k <= n == stack@.len(),
        forall|j: int| 0 <= j <= n ==> fits_i32(#[trigger] sum_w(stack@, j)),
        forall|j: int| 0 <= j <= n ==> fits_i32(#[trigger] sum_h(stack@, j)),
    ensures
        r.0 == sum_w(stack@, k as int),
        r.1 == sum_h(stack@, k as int),
{
    let mut sw: i32 = 0;
    let mut sh: i32 = 0;
    let mut i: usize = 0;
    while i < k
        invariant
            i <= k <= n == stack@.len(),
            forall|j: int| 0 <= j <= n ==> fits_i32(#[trigger] sum_w(stack@, j)),
            forall|j: int| 0 <= j <= n ==> fits_i32(#[trigger] sum_h(stack@, j)),
            sw == sum_w(stack@, i as int),
            sh == sum_h(stack@, i as int),
        decreases k - i,
    {
        assert(fits_i32(sum_w(stack@, i + 1)));
        assert(fits_i32(sum_h(stack@, i + 1)));
        sw = sw + stack[i].0;
        sh = sh + stack[i].1;
        i = i + 1;
    }
    (sw, sh)
}

/// Position of the notification at `index` in `stack` (outermost first).
/// `stack` holds the sizes of every displayed notification in stacking
/// order, including the one being placed. The stack grows away from the
/// origin: a top origin stacks downward, a bottom origin upward, a left
/// origin rightward, a right origin leftward.
pub fn stack_position(
    origin: Origin,
    offset: (i32, i32),
    gap: i32,
    monitor: MonitorGeometry,
    stack: &[(i32, i32)],
    index: usize,
) -> (p: (i32, i32))
    requires
        stack_position_defined(origin, offset, gap, monitor, stack@, index as int),
    ensures
        p.0 == stack_x(origin, offset, gap, monitor, stack@, index as int),
        p.1 == stack_y(origin, offset, gap, monitor, stack@, index as int),
{
    let ghost s = stack@;
    let (w, h) = stack[index];
    let g: i32 = if gap < 0 {
        0
    } else {
        gap
    };
    let (ox, oy) = offset;
    let len = stack.len();
    let n: usize = if len < 1 {
        1
    } else {
        len
    };
    let (all_w, all_h) = sums(stack, len, len);
    let (pre_w, pre_h) = sums(stack, index, len);
    let gaps = g * ((n - 1) as i32);
    let tw: i32 = all_w + gaps;
    let th: i32 = all_h + gaps;
    let gi = g * (index as i32);
    let bw: i32 = pre_w + gi;
    let bh: i32 = pre_h + gi;
    assert(tw == total_w(s, gap));
    assert(bw == before_w(s, gap, index as int));
    let m = monitor;
    let x = match origin {
        Origin::TopLeft | Origin::BottomLeft => m.x + ox,
        Origin::TopRight | Origin::BottomRight => m.x + m.width - ox - w,
        Origin::TopCenter | Origin::BottomCenter => m.x + half_i32(m.width - w),
        Origin::Left => m.x + ox + bw,
        Origin::Right => m.x + m.width - ox - w - bw,
        Origin::Center => m.x + half_i32(m.width - tw) + bw,
    };
    let y = match origin {
        Origin::TopLeft | Origin::TopCenter | Origin::TopRight => m.y + oy + bh,
        Origin::BottomLeft | Origin::BottomCenter | Origin::BottomRight => m.y + m.height - oy - h
            - bh,
        Origin::Left | Origin::Right | Origin::Center => m.y + half_i32(m.height - th) + bh,
    };
    (x, y)
}

fn fits(v: i64) -> (b: bool)
    ensures
        b == fits_i32(v as int),
{
    -2147483648i64 <= v && v <= 2147483647i64
}

fn half_i64(v: i64) -> (r: i64)
    requires
        -0x4000_0000_0000_0000 <= v <= 0x4000_0000_0000_0000,
    ensures
        r == half(v as int),
{
    if v >= 0 {
        v / 2
    } else {
        -((-v) / 2)
    }
}

/// Whether every prefix sum of widths and heights fits an `i32`; on success
/// the sums over the first `index` entries.
fn checked_sums(stack: &[(i32, i32)], index: usize) -> (r: Option<(i64, i64, i64, i64)>)
    requires
        index < stack@.len(),
    ensures
        match r {
            None => !(forall|k: int| 0 <= k <= stack@.len() ==> fits_i32(#[trigger] sum_w(stack@, k)))
                || !(forall|k: int| 0 <= k <= stack@.len() ==> fits_i32(#[trigger] sum_h(stack@, k))),
            Some((pw, ph, aw, ah)) => (forall|k: int|
                0 <= k <= stack@.len() ==> fits_i32(#[trigger] sum_w(stack@, k))) && (forall|k: int|
                0 <= k <= stack@.len() ==> fits_i32(#[trigger] sum_h(stack@, k))) && pw == sum_w(
                stack@,
                index as int,
            ) && ph == sum_h(stack@, index as int) && aw == sum_w(stack@, stack@.len() as int)
                && ah == sum_h(stack@, stack@.len() as int),
        },
{
    let n = stack.len();
    let mut sw: i64 = 0;
    let mut sh: i64 = 0;
    let mut pw: i64 = 0;
    let mut ph: i64 = 0;
    let mut i: usize = 0;
    while i < n
        invariant
            i <= n == stack@.len(),
            index < n,
            forall|k: int| 0 <= k <= i ==> fits_i32(#[trigger] sum_w(stack@, k)),
            forall|k: int| 0 <= k <= i ==> fits_i32(#[trigger] sum_h(stack@, k)),
            sw == sum_w(stack@, i as int),
            sh == sum_h(stack@, i as int),
            i > index ==> pw == sum_w(stack@, index as int) && ph == sum_h(stack@, index as int),
        decreases n - i,
    {
        if i == index {
            pw = sw;
            ph = sh;
        }
        let (w, h) = stack[i];
        let nw = sw + w as i64;
        let nh = sh + h as i64;
        if !fits(nw) || !fits(nh) {
            assert(sum_w(stack@, i + 1) == nw);
            assert(sum_h(stack@, i + 1) == nh);
            return None;
        }
        sw = nw;
        sh = nh;
        i = i + 1;
        assert forall|k: int| 0 <= k <= i implies fits_i32(#[trigger] sum_w(stack@, k)) by {
            if k < i {
            }
        }
        assert forall|k: int| 0 <= k <= i implies fits_i32(#[trigger] sum_h(stack@, k)) by {
            if k < i {
            }
        }
    }
    Some((pw, ph, sw, sh))
}

/// [`stack_position`] for every input: `None` exactly where an
/// intermediate value would leave the `i32` range (an overflow),
/// including an `index` outside the stack.
pub fn stack_position_checked(
    origin: Origin,
    offset: (i32, i32),
    gap: i32,
    monitor: MonitorGeometry,
    stack: &[(i32, i32)],
    index: usize,
) -> (p: Option<(i32, i32)>)
    ensures
        match p {
            None => !stack_position_defined(origin, offset, gap, monitor, stack@, index as int),
            Some((x, y)) => stack_position_defined(origin, offset, gap, monitor, stack@, index as int)
                && x == stack_x(origin, offset, gap, monitor, stack@, index as int) && y == stack_y(
                origin,
                offset,
                gap,
                monitor,
                stack@,
                index as int,
            ),
        },
{
    if index >= stack.len() {
        return None;
    }
    let (pw, ph, aw, ah) = match checked_sums(stack, index) {
        None => {
            return None;
        },
        Some(t) => t,
    };
    let ghost s = stack@;
    let (w32, h32) = stack[index];
    let w = w32 as i64;
    let h = h32 as i64;
    let g: i64 = if gap < 0 {
        0
    } else {
        gap as i64
    };
    let len = stack.len();
    let cnt: i64 = (if len < 1 {
        0
    } else {
        len - 1
    }) as i32 as i64;
    let idx: i64 = index as i32 as i64;
    assert(cnt == gap_count(len as int));
    assert(-0x8000_0000 <= cnt <= 0x7fff_ffff);
    assert(0 <= g <= 0x7fff_ffff);
    assert(-0x4000_0000_0000_0000 <= g * cnt <= 0x4000_0000_0000_0000) by (nonlinear_arith)
        requires
            -0x8000_0000 <= cnt <= 0x7fff_ffff,
            0 <= g <= 0x7fff_ffff,
    ;
    assert(-0x4000_0000_0000_0000 <= g * idx <= 0x4000_0000_0000_0000) by (nonlinear_arith)
        requires
            -0x8000_0000 <= idx <= 0x7fff_ffff,
            0 <= g <= 0x7fff_ffff,
    ;
    let gaps = g * cnt;
    let gi = g * idx;
    if !fits(gaps) || !fits(gi) {
        return None;
    }
    let tw = aw + gaps;
    let th = ah + gaps;
    let bw = pw + gi;
    let bh = ph + gi;
    if !fits(tw) || !fits(th) || !fits(bw) || !fits(bh) {
        return None;
    }
    assert(tw == total_w(s, gap) && th == total_h(s, gap));
    assert(bw == before_w(s, gap, index as int) && bh == before_h(s, gap, index as int));
    let mx = monitor.x as i64;
    let my = monitor.y as i64;
    let mw = monitor.width as i64;
    let mh = monitor.height as i64;
    let ox = offset.0 as i64;
    let oy = offset.1 as i64;
    let x: i64 = match origin {
        Origin::TopLeft | Origin::BottomLeft => {
            let a = mx + ox;
            if !fits(a) {
                return None;
            }
            a
        },
        Origin::TopRight | Origin::BottomRight => {
            let a = mx + mw;
            let b = a - ox;
            let c = b - w;
            if !fits(a) || !fits(b) || !fits(c) {
                return None;
            }
            c
        },
        Origin::TopCenter | Origin::BottomCenter => {
            let a = mw - w;
            if !fits(a) {
                return None;
            }
            let b = mx + half_i64(a);
            if !fits(b) {
                return None;
            }
            b
        },
        Origin::Left => {
            let a = mx + ox;
            let b = a + bw;
            if !fits(a) || !fits(b) {
                return None;
            }
            b
        },
        Origin::Right => {
            let a = mx + mw;
            let b = a - ox;
            let c = b - w;
            let d = c - bw;
            if !fits(a) || !fits(b) || !fits(c) || !fits(d) {
                return None;
            }
            d
        },
        Origin::Center => {
            let a = mw - tw;
            if !fits(a) {
                return None;
            }
            let b = mx + half_i64(a);
            let c = b + bw;
            if !fits(b) || !fits(c) {
                return None;
            }
            c
        },
    };
    let y: i64 = match origin {
        Origin::TopLeft | Origin::TopCenter | Origin::TopRight => {
            let a = my + oy;
            let b = a + bh;
            if !fits(a) || !fits(b) {
                return None;
            }
            b
        },
        Origin::BottomLeft | Origin::BottomCenter | Origin::BottomRight => {
            let a = my + mh;
            let b = a - oy;
            let c = b - h;
            let d = c - bh;
            if !fits(a) || !fits(b) || !fits(c) || !fits(d) {
                return None;
            }
            d
        },
        Origin::Left | Origin::Right | Origin::Center => {
            let a = mh - th;
            if !fits(a) {
                return None;
            }
            let b = my + half_i64(a);
            let c = b + bh;
            if !fits(b) || !fits(c) {
                return None;
            }
            c
        },
    };
    Some((x as i32, y as i32))
}

/// Positions of every notification of the stack (see [`stack_position`]).
pub fn place_stack(
    origin: Origin,
    offset: (i32, i32),
    gap: i32,
    monitor: MonitorGeometry,
    stack: &Vec<(i32, i32)>,
) -> (r: Vec<(i32, i32)>)
    requires
        forall|i: int|
            0 <= i < stack@.len() ==> #[trigger] stack_position_defined(
                origin,
                offset,
                gap,
                monitor,
                stack@,
                i,
            ),
    ensures
        r@.len() == stack@.len(),
        forall|i: int|
            0 <= i < r@.len() ==> (#[trigger] r@[i]).0 == stack_x(
                origin,
                offset,
                gap,
                monitor,
                stack@,
                i,
            ) && r@[i].1 == stack_y(origin, offset, gap, monitor, stack@, i),
{
    let mut r: Vec<(i32, i32)> = Vec::new();
    let mut i: usize = 0;
    while i < stack.len()
        invariant
            i <= stack@.len(),
            r@.len() == i,
            forall|j: int|
                0 <= j < stack@.len() ==> #[trigger] stack_position_defined(
                    origin,
                    offset,
                    gap,
                    monitor,
                    stack@,
                    j,
                ),
            forall|j: int|
                0 <= j < i ==> (#[trigger] r@[j]).0 == stack_x(
                    origin,
                    offset,
                    gap,
                    monitor,
                    stack@,
                    j,
                ) && r@[j].1 == stack_y(origin, offset, gap, monitor, stack@, j),
        decreases stack@.len() - i,
    {
        assert(stack_position_defined(origin, offset, gap, monitor, stack@, i as int));
        let p = stack_position(origin, offset, gap, monitor, stack.as_slice(), i);
        r.push(p);
        i = i + 1;
    }
    r
}

/// [`place_stack`] for every input: `None` exactly when some position
/// would overflow (see [`stack_position_checked`]).
pub fn place_stack_checked(
    origin: Origin,
    offset: (i32, i32),
    gap: i32,
    monitor: MonitorGeometry,
    stack: &Vec<(i32, i32)>,
) -> (r: Option<Vec<(i32, i32)>>)
    ensures
        match r {
            None => exists|i: int|
                0 <= i < stack@.len() && !#[trigger] stack_position_defined(
                    origin,
                    offset,
                    gap,
                    monitor,
                    stack@,
                    i,
                ),
            Some(v) => v@.len() == stack@.len() && forall|i: int|
                0 <= i < v@.len() ==> #[trigger] stack_position_defined(
                    origin,
                    offset,
                    gap,
                    monitor,
                    stack@,
                    i,
                ) && v@[i].0 == stack_x(origin, offset, gap, monitor, stack@, i) && v@[i].1
                    == stack_y(origin, offset, gap, monitor, stack@, i),
        },
{
    let mut r: Vec<(i32, i32)> = Vec::new();
    let mut i: usize = 0;
    while i < stack.len()
        invariant
            i <= stack@.len(),
            r@.len() == i,
            forall|j: int|
                0 <= j < i ==> #[trigger] stack_position_defined(
                    origin,
                    offset,
                    gap,
                    monitor,
                    stack@,
                    j,
                ) && r@[j].0 == stack_x(origin, offset, gap, monitor, stack@, j) && r@[j].1
                    == stack_y(origin, offset, gap, monitor, stack@, j),
        decreases stack@.len() - i,
    {
        match stack_position_checked(origin, offset, gap, monitor, stack.as_slice(), i) {
            None => {
                return None;
            },
            Some(p) => {
                r.push(p);
            },
        }
        i = i + 1;
    }
    Some(r)
}

/// Whether [`resolve_size`] accepts the spec (see [`size_spec_valid`]).
pub fn size_spec_is_valid(spec: &SizeSpec) -> (b: bool)
    ensures
        b == size_spec_valid(spec@),
{
    match spec {
        SizeSpec::Range(min, max) => {
            let lo = if *min < 0 {
                0
            } else {
                *min
            };
            let hi = if *max <= 0 {
                i32::MAX
            } else {
                *max
            };
            lo <= hi
        },
        _ => true,
    }
}

/// Margin kept from the monitor edges by [`corner_position`].
pub const CORNER_MARGIN: i32 = 12;

/// Top-right corner of a monitor for a window of width `w`, inset by the
/// margin; `(0, 0)` when no monitor is known.
pub fn corner_position(monitor: Option<MonitorGeometry>, w: i32) -> (p: (i32, i32))
    requires
        monitor matches Some(m) ==> fits_i32(m.x + m.width) && fits_i32(m.x + m.width - w)
            && fits_i32(m.x + m.width - w - CORNER_MARGIN) && fits_i32(m.y + CORNER_MARGIN),
    ensures
        p == match monitor {
            Some(m) => ((m.x + m.width - w - CORNER_MARGIN) as i32, (m.y + CORNER_MARGIN) as i32),
            None => (0i32, 0i32),
        },
{
    match monitor {
        Some(m) => (m.x + m.width - w - CORNER_MARGIN, m.y + CORNER_MARGIN),
        None => (0, 0),
    }
}

/// [`corner_position`] for every input: `None` exactly when the position
/// would overflow.
pub fn corner_position_checked(monitor: Option<MonitorGeometry>, w: i32) -> (p: Option<(i32, i32)>)
    ensures
        match p {
            None => monitor matches Some(m) && !(fits_i32(m.x + m.width) && fits_i32(
                m.x + m.width - w,
            ) && fits_i32(m.x + m.width - w - CORNER_MARGIN) && fits_i32(m.y + CORNER_MARGIN)),
            Some(q) => q == match monitor {
                Some(m) => ((m.x + m.width - w - CORNER_MARGIN) as i32, (m.y + CORNER_MARGIN) as i32),
                None => (0i32, 0i32),
            },
        },
{
    match monitor {
        Some(m) => {
            let a = m.x as i64 + m.width as i64;
            let b = a - w as i64;
            let c = b - CORNER_MARGIN as i64;
            let d = m.y as i64 + CORNER_MARGIN as i64;
            if fits(a) && fits(b) && fits(c) && fits(d) {
                Some(corner_position(monitor, w))
            } else {
                None
            }
        },
        None => Some((0, 0)),
    }
}

/// The scale factor in effect: the surface's, at least 1, 1 when unknown.
pub open spec fn effective_scale(scale_factor: Option<i32>) -> int {
    match scale_factor {
        Some(s) => if s < 1 {
            1
        } else {
            s as int
        },
        None => 1,
    }
}

/// Converts logical coordinates and sizes to physical pixels (HiDPI).
pub fn to_physical(x: i32, y: i32, width: u32, height: u32, scale_factor: Option<i32>) -> (r: (
    i32,
    i32,
    u32,
    u32,
))
    requires
        fits_i32(x * effective_scale(scale_factor)),
        fits_i32(y * effective_scale(scale_factor)),
        width * effective_scale(scale_factor) <= u32::MAX,
        height * effective_scale(scale_factor) <= u32::MAX,
    ensures
        r.0 == x * effective_scale(scale_factor),
        r.1 == y * effective_scale(scale_factor),
        r.2 == width * effective_scale(scale_factor),
        r.3 == height * effective_scale(scale_factor),
{
    let s: i32 = match scale_factor {
        Some(s) => if s < 1 {
            1
        } else {
            s
        },
        None => 1,
    };
    let su = s as u32;
    (x * s, y * s, width * su, height * su)
}

/// A top origin stacks downward: each notification starts where the
/// previous one ends, plus the gap (a negative gap counts as none).
pub proof fn law_top_stacks_downward(
    origin: Origin,
    offset: (i32, i32),
    gap: i32,
    m: MonitorGeometry,
    stack: Seq<(i32, i32)>,
    i: int,
)
    requires
        is_top(origin),
        0 <= i,
        i + 1 < stack.len(),
        i + 1 <= i32::MAX,
    ensures
        stack_y(origin, offset, gap, m, stack, i + 1) == stack_y(origin, offset, gap, m, stack, i)
            + stack[i].1 + gap_of(gap),
{
    assert(sum_h(stack, i + 1) == sum_h(stack, i) + stack[i].1);
    assert((i + 1) as i32 as int == i + 1);
    assert(i as i32 as int == i);
    assert(gap_of(gap) * (i + 1) == gap_of(gap) * i + gap_of(gap)) by (nonlinear_arith);
}

/// A bottom origin stacks upward: each notification ends where the
/// previous one starts, minus the gap.
pub proof fn law_bottom_stacks_upward(
    origin: Origin,
    offset: (i32, i32),
    gap: i32,
    m: MonitorGeometry,
    stack: Seq<(i32, i32)>,
    i: int,
)
    requires
        is_bottom(origin),
        0 <= i,
        i + 1 < stack.len(),
        i + 1 <= i32::MAX,
    ensures
        stack_y(origin, offset, gap, m, stack, i + 1) + stack[i + 1].1 + gap_of(gap) == stack_y(
            origin,
            offset,
            gap,
            m,
            stack,
            i,
        ),
{
    assert(sum_h(stack, i + 1) == sum_h(stack, i) + stack[i].1);
    assert((i + 1) as i32 as int == i + 1);
    assert(i as i32 as int == i);
    assert(gap_of(gap) * (i + 1) == gap_of(gap) * i + gap_of(gap)) by (nonlinear_arith);
}

/// The `Left` origin stacks rightward and the `Right` origin leftward.
pub proof fn law_side_origins_stack_horizontally(
    origin: Origin,
    offset: (i32, i32),
    gap: i32,
    m: MonitorGeometry,
    stack: Seq<(i32, i32)>,
    i: int,
)
    requires
        origin == Origin::Left || origin == Origin::Right,
        0 <= i,
        i + 1 < stack.len(),
        i + 1 <= i32::MAX,
    ensures
        origin == Origin::Left ==> stack_x(origin, offset, gap, m, stack, i + 1) == stack_x(
            origin,
            offset,
            gap,
            m,
            stack,
            i,
        ) + stack[i].0 + gap_of(gap),
        origin == Origin::Right ==> stack_x(origin, offset, gap, m, stack, i + 1) + stack[i
            + 1].0 + gap_of(gap) == stack_x(origin, offset, gap, m, stack, i),
{
    assert(sum_w(stack, i + 1) == sum_w(stack, i) + stack[i].0);
    assert((i + 1) as i32 as int == i + 1);
    assert(i as i32 as int == i);
    assert(gap_of(gap) * (i + 1) == gap_of(gap) * i + gap_of(gap)) by (nonlinear_arith);
}

/// Corner origins never grow the stack sideways: left corners align every
/// notification's left edge on the offset, right corners every right edge.
pub proof fn law_corners_align_edges(
    origin: Origin,
    offset: (i32, i32),
    gap: i32,
    m: MonitorGeometry,
    stack: Seq<(i32, i32)>,
    i: int,
)
    requires
        0 <= i < stack.len(),
    ensures
        is_left_corner(origin) ==> stack_x(origin, offset, gap, m, stack, i) == m.x + offset.0,
        is_right_corner(origin) ==> stack_x(origin, offset, gap, m, stack, i) + stack[i].0 == m.x
            + m.width - offset.0,
{
}

/// The middle row (and `Center`) centers the whole stack vertically: the
/// first notification starts half the free height below the monitor's top,
/// and the others follow it downward.
pub proof fn law_middle_row_centers_stack(
    origin: Origin,
    offset: (i32, i32),
    gap: i32,
    m: MonitorGeometry,
    stack: Seq<(i32, i32)>,
    i: int,
)
    requires
        is_middle_row(origin),
        0 <= i,
        i + 1 < stack.len(),
        i + 1 <= i32::MAX,
    ensures
        stack_y(origin, offset, gap, m, stack, 0) == m.y + half(m.height - total_h(stack, gap)),
        stack_y(origin, offset, gap, m, stack, i + 1) == stack_y(origin, offset, gap, m, stack, i)
            + stack[i].1 + gap_of(gap),
{
    assert(sum_h(stack, i + 1) == sum_h(stack, i) + stack[i].1);
    assert((i + 1) as i32 as int == i + 1);
    assert(i as i32 as int == i);
    assert(gap_of(gap) * (i + 1) == gap_of(gap) * i + gap_of(gap)) by (nonlinear_arith);
    assert(0int as i32 as int == 0);
    assert(gap_of(gap) * 0 == 0);
}

/// A range keeps the natural size when it lies within the bounds and
/// otherwise clamps it to the nearest bound: the result is never negative,
/// a positive minimum or maximum bounds it, a bound of 0 is open.
pub proof fn law_range_clamps(min: i32, max: i32, natural: i32)
    requires
        size_spec_valid(SizeSpecView::Range(min, max)),
    ensures
        ({
            let r = resolve_size_spec(SizeSpecView::Range(min, max), natural)->Some_0;
            &&& r >= 0
            &&& (min > 0 ==> r >= min)
            &&& (max > 0 ==> r <= max)
            &&& (natural >= 0 && natural >= min && (max <= 0 || natural <= max) ==> r == natural)
        }),
{
}

/// A range spec clamps the natural size into `[lo, hi]`, where `lo` is the
/// minimum (at least 0) and `hi` the maximum (unbounded when not positive):
/// below `lo` the size is `lo`, above `hi` it is `hi`, in between it is the
/// natural size.
pub proof fn law_range_is_clamp(min: i32, max: i32, natural: i32)
    requires
        size_spec_valid(SizeSpecView::Range(min, max)),
    ensures
        ({
            let lo: int = if min < 0 {
                0
            } else {
                min as int
            };
            let hi: int = if max <= 0 {
                i32::MAX as int
            } else {
                max as int
            };
            let r = resolve_size_spec(SizeSpecView::Range(min, max), natural);
            &&& r is Some
            &&& lo <= r->Some_0 <= hi
            &&& natural < lo ==> r->Some_0 == lo
            &&& natural > hi ==> r->Some_0 == hi
            &&& lo <= natural <= hi ==> r->Some_0 == natural
        }),
{
}

/// A positive constant fixes the size whatever the content; any other
/// constant keeps the natural size. A percentage is not resolved here.
pub proof fn law_constant_and_percent(w: i32, natural: i32, p: Seq<char>)
    ensures
        w > 0 ==> resolve_size_spec(SizeSpecView::Constant(w), natural) == Some(w),
        w <= 0 ==> resolve_size_spec(SizeSpecView::Constant(w), natural) == Some(natural),
        resolve_size_spec(SizeSpecView::Percent(p), natural) is None,
{
}

proof fn lemma_before_step(stack: Seq<(i32, i32)>, gap: i32, i: int)
    requires
        0 <= i,
        i + 1 <= stack.len(),
        i + 1 <= i32::MAX,
    ensures
        before_w(stack, gap, i + 1) == before_w(stack, gap, i) + stack[i].0 + gap_of(gap),
        before_h(stack, gap, i + 1) == before_h(stack, gap, i) + stack[i].1 + gap_of(gap),
{
    assert(sum_w(stack, i + 1) == sum_w(stack, i) + stack[i].0);
    assert(sum_h(stack, i + 1) == sum_h(stack, i) + stack[i].1);
    assert((i + 1) as i32 as int == i + 1);
    assert(i as i32 as int == i);
    assert(gap_of(gap) * (i + 1) == gap_of(gap) * i + gap_of(gap)) by (nonlinear_arith);
}

/// The `Center` origin lays the stack out left to right: each notification
/// starts where the previous one ends, plus the gap (a negative gap counts
/// as none).
pub proof fn law_center_stacks_rightward(
    offset: (i32, i32),
    gap: i32,
    m: MonitorGeometry,
    stack: Seq<(i32, i32)>,
    i: int,
)
    requires
        0 <= i,
        i + 1 < stack.len(),
        i + 1 <= i32::MAX,
    ensures
        stack_x(Origin::Center, offset, gap, m, stack, i + 1) == stack_x(
            Origin::Center,
            offset,
            gap,
            m,
            stack,
            i,
        ) + stack[i].0 + gap_of(gap),
{
    lemma_before_step(stack, gap, i);
}

proof fn lemma_last_end(stack: Seq<(i32, i32)>, gap: i32)
    requires
        1 <= stack.len() <= i32::MAX,
    ensures
        before_w(stack, gap, stack.len() - 1) + stack[stack.len() - 1].0 == total_w(stack, gap),
        before_h(stack, gap, stack.len() - 1) + stack[stack.len() - 1].1 == total_h(stack, gap),
{
    let n = stack.len() as int;
    assert(sum_w(stack, n) == sum_w(stack, n - 1) + stack[n - 1].0);
    assert(sum_h(stack, n) == sum_h(stack, n - 1) + stack[n - 1].1);
    assert((n - 1) as i32 as int == n - 1);
    assert(gap_count(n) == n - 1);
}

/// The `Center` origin centers the whole stack horizontally: the free space
/// left of the first notification and right of the last one differ by at
/// most one pixel (the odd pixel of an odd free width).
pub proof fn law_center_centers_horizontally(
    offset: (i32, i32),
    gap: i32,
    m: MonitorGeometry,
    stack: Seq<(i32, i32)>,
)
    requires
        1 <= stack.len() <= i32::MAX,
    ensures
        ({
            let n = stack.len() as int;
            let left = stack_x(Origin::Center, offset, gap, m, stack, 0) - m.x;
            let right = m.x + m.width - (stack_x(Origin::Center, offset, gap, m, stack, n - 1)
                + stack[n - 1].0);
            -1 <= left - right <= 1
        }),
{
    lemma_last_end(stack, gap);
    assert(0int as i32 as int == 0);
    assert(gap_of(gap) * 0 == 0);
    assert(before_w(stack, gap, 0) == 0);
}

/// The middle row (`Left`, `Center`, `Right`) centers the whole stack
/// vertically: the free space above the first notification and below the
/// last one differ by at most one pixel.
pub proof fn law_middle_row_centers_vertically(
    origin: Origin,
    offset: (i32, i32),
    gap: i32,
    m: MonitorGeometry,
    stack: Seq<(i32, i32)>,
)
    requires
        is_middle_row(origin),
        1 <= stack.len() <= i32::MAX,
    ensures
        ({
            let n = stack.len() as int;
            let top = stack_y(origin, offset, gap, m, stack, 0) - m.y;
            let bottom = m.y + m.height - (stack_y(origin, offset, gap, m, stack, n - 1)
                + stack[n - 1].1);
            -1 <= top - bottom <= 1
        }),
{
    lemma_last_end(stack, gap);
    assert(0int as i32 as int == 0);
    assert(gap_of(gap) * 0 == 0);
    assert(before_h(stack, gap, 0) == 0);
}

/// The first notification sits at the offset from the origin's edges: a
/// top origin `offset.1` below the monitor's top, a bottom origin `offset.1`
/// above its bottom, `Left` `offset.0` right of its left edge and `Right`
/// `offset.0` left of its right edge.
pub proof fn law_first_at_offset(
    origin: Origin,
    offset: (i32, i32),
    gap: i32,
    m: MonitorGeometry,
    stack: Seq<(i32, i32)>,
)
    requires
        stack.len() >= 1,
    ensures
        is_top(origin) ==> stack_y(origin, offset, gap, m, stack, 0) == m.y + offset.1,
        is_bottom(origin) ==> stack_y(origin, offset, gap, m, stack, 0) + stack[0].1 == m.y
            + m.height - offset.1,
        origin == Origin::Left ==> stack_x(origin, offset, gap, m, stack, 0) == m.x + offset.0,
        origin == Origin::Right ==> stack_x(origin, offset, gap, m, stack, 0) + stack[0].0 == m.x
            + m.width - offset.0,
{
    assert(0int as i32 as int == 0);
    assert(gap_of(gap) * 0 == 0);
    assert(before_w(stack, gap, 0) == 0);
    assert(before_h(stack, gap, 0) == 0);
}

/// `top-center` and `bottom-center` center every notification horizontally
/// on the monitor: the free space on its left and right differs by at most
/// one pixel.
pub proof fn law_top_bottom_center_each_entry(
    origin: Origin,
    offset: (i32, i32),
    gap: i32,
    m: MonitorGeometry,
    stack: Seq<(i32, i32)>,
    i: int,
)
    requires
        origin == Origin::TopCenter || origin == Origin::BottomCenter,
        0 <= i < stack.len(),
    ensures
        ({
            let left = stack_x(origin, offset, gap, m, stack, i) - m.x;
            let right = m.x + m.width - (stack_x(origin, offset, gap, m, stack, i) + stack[i].0);
            -1 <= left - right <= 1
        }),
{
}

/// Whether [`to_physical`] accepts its arguments (no product overflows).
pub open spec fn physical_fits(x: i32, y: i32, width: u32, height: u32, scale_factor: Option<i32>) -> bool {
    &&& fits_i32(x * effective_scale(scale_factor))
    &&& fits_i32(y * effective_scale(scale_factor))
    &&& width * effective_scale(scale_factor) <= u32::MAX
    &&& height * effective_scale(scale_factor) <= u32::MAX
}

/// [`to_physical`] for every input: `None` exactly when a product would
/// overflow.
pub fn to_physical_checked(x: i32, y: i32, width: u32, height: u32, scale_factor: Option<i32>) -> (r: Option<(i32, i32, u32, u32)>)
    ensures
        match r {
            None => !physical_fits(x, y, width, height, scale_factor),
            Some(q) => physical_fits(x, y, width, height, scale_factor) && q.0 == x * effective_scale(
                scale_factor,
            ) && q.1 == y * effective_scale(scale_factor) && q.2 == width * effective_scale(
                scale_factor,
            ) && q.3 == height * effective_scale(scale_factor),
        },
{
    let s: i64 = match scale_factor {
        Some(s) => if s < 1 {
            1
        } else {
            s as i64
        },
        None => 1,
    };
    assert(1 <= s <= 0x7fff_ffff);
    assert(-0x4000_0000_0000_0000 <= x * s <= 0x4000_0000_0000_0000) by (nonlinear_arith)
        requires
            1 <= s <= 0x7fff_ffff,
            -0x8000_0000 <= x <= 0x7fff_ffff,
    ;
    assert(-0x4000_0000_0000_0000 <= y * s <= 0x4000_0000_0000_0000) by (nonlinear_arith)
        requires
            1 <= s <= 0x7fff_ffff,
            -0x8000_0000 <= y <= 0x7fff_ffff,
    ;
    assert(0 <= width * s <= 0x7fff_ffff_0000_0000) by (nonlinear_arith)
        requires
            1 <= s <= 0x7fff_ffff,
            0 <= width <= 0xffff_ffff,
    ;
    assert(0 <= height * s <= 0x7fff_ffff_0000_0000) by (nonlinear_arith)
        requires
            1 <= s <= 0x7fff_ffff,
            0 <= height <= 0xffff_ffff,
    ;
    let xs = x as i64 * s;
    let ys = y as i64 * s;
    let ws = width as i64 * s;
    let hs = height as i64 * s;
    if fits(xs) && fits(ys) && ws <= 0xffff_ffff && hs <= 0xffff_ffff {
        Some(to_physical(x, y, width, height, scale_factor))
    } else {
        None
    }
}

} // verus!
