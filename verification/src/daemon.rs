//! Decisions the daemon takes between D-Bus events and the window system:
//! when a notification expires, in which order the stack is laid out, where
//! each window of it goes, and on which monitor.

use vstd::prelude::*;
use crate::config::{urgency_index, Config, Follow, Monitor, MonitorView};
use crate::text::{chars_of, contains_chars, contains_text};
use crate::config::Origin;
use crate::layout::{
    place_stack_checked, stack_position_defined, stack_x, stack_y, MonitorGeometry,
};

verus! {

broadcast use vstd::seq_lib::group_to_multiset_ensures;

/// Milliseconds until a notification expires, 0 meaning never: an explicit
/// timeout (milliseconds, `>= 0`) wins; `-1` falls back to the urgency's
/// default (seconds).
pub open spec fn expiry_ms_spec(expire_timeout: i32, urgency_timeout: i32) -> int {
    if expire_timeout >= 0 {
        expire_timeout as int
    } else {
        urgency_timeout * 1000
    }
}

/// When a notification with the given `expire_timeout` and urgency level
/// expires, in milliseconds (0 = never).
pub fn expiry_ms(cfg: &Config, expire_timeout: i32, urgency: u8) -> (ms: u64)
    requires
        expire_timeout >= 0 || cfg@.urgency[urgency_index(urgency)].timeout >= 0,
    ensures
        ms == expiry_ms_spec(expire_timeout, cfg@.urgency[urgency_index(urgency)].timeout),
{
    if expire_timeout >= 0 {
        expire_timeout as u64
    } else {
        let t = cfg.urgency(urgency).timeout;
        t as u64 * 1000
    }
}

/// A notification without its own timeout (`expire_timeout < 0`) expires
/// after the timeout of its own urgency's section, in seconds: low uses
/// section 0, normal section 1, critical section 2. An explicit timeout is
/// taken as is, in milliseconds.
pub proof fn law_expiry_uses_its_urgency_section(cfg: crate::config::ConfigView, expire_timeout: i32, level: u8)
    requires
        cfg.urgency.len() == 3,
    ensures
        expire_timeout < 0 && level <= 2 ==> expiry_ms_spec(
            expire_timeout,
            cfg.urgency[urgency_index(level)].timeout,
        ) == cfg.urgency[level as int].timeout * 1000,
        expire_timeout < 0 && level > 2 ==> expiry_ms_spec(
            expire_timeout,
            cfg.urgency[urgency_index(level)].timeout,
        ) == cfg.urgency[2].timeout * 1000,
        expire_timeout >= 0 ==> expiry_ms_spec(
            expire_timeout,
            cfg.urgency[urgency_index(level)].timeout,
        ) == expire_timeout,
{
}

/// Stacking order between two displayed notifications `(id, urgency)`:
/// by urgency, most urgent first, then by id (arrival); or by id alone.
pub open spec fn stacks_before(a: (u32, u8), b: (u32, u8), by_urgency: bool) -> bool {
    if by_urgency {
        a.1 > b.1 || (a.1 == b.1 && a.0 <= b.0)
    } else {
        a.0 <= b.0
    }
}

pub open spec fn stack_sorted(s: Seq<(u32, u8)>, by_urgency: bool) -> bool {
    forall|i: int, j: int| 0 <= i < j < s.len() ==> stacks_before(s[i], s[j], by_urgency)
}

fn before(a: (u32, u8), b: (u32, u8), by_urgency: bool) -> (r: bool)
    ensures
        r == stacks_before(a, b, by_urgency),
{
    if by_urgency {
        a.1 > b.1 || (a.1 == b.1 && a.0 <= b.0)
    } else {
        a.0 <= b.0
    }
}

/// The displayed notifications `(id, urgency)` in stacking order, outermost
/// first: the same entries, sorted by [`stacks_before`].
pub fn stacking_order(entries: &Vec<(u32, u8)>, by_urgency: bool) -> (r: Vec<(u32, u8)>)
    ensures
        r@.to_multiset() == entries@.to_multiset(),
        stack_sorted(r@, by_urgency),
{
    let mut r: Vec<(u32, u8)> = Vec::new();
    let mut i: usize = 0;
    while i < entries.len()
        invariant
            i <= entries.len(),
            r@.to_multiset() == entries@.subrange(0, i as int).to_multiset(),
            stack_sorted(r@, by_urgency),
        decreases entries.len() - i,
    {
        let e = entries[i];
        let mut j: usize = 0;
        while j < r.len() && before(r[j], e, by_urgency)
            invariant
                j <= r.len(),
                forall|k: int| 0 <= k < j ==> stacks_before(#[trigger] r@[k], e, by_urgency),
            decreases r.len() - j,
        {
            j = j + 1;
        }
        let ghost old_r = r@;
        r.insert(j, e);
        proof {
            assert(r@ == old_r.insert(j as int, e));
            assert(entries@.subrange(0, i + 1) =~= entries@.subrange(0, i as int).push(e));
            assert forall|a: int, b: int| 0 <= a < b < r@.len() implies stacks_before(
                r@[a],
                r@[b],
                by_urgency,
            ) by {
                if b < j {
                    assert(r@[a] == old_r[a] && r@[b] == old_r[b]);
                } else if b == j {
                    assert(r@[a] == old_r[a]);
                } else if a == j {
                    assert(r@[b] == old_r[b - 1]);
                    assert(!stacks_before(old_r[j as int], e, by_urgency));
                    assert(stacks_before(old_r[j as int], old_r[b - 1], by_urgency) || b - 1 == j);
                } else if a < j {
                    assert(r@[a] == old_r[a] && r@[b] == old_r[b - 1]);
                } else {
                    assert(r@[a] == old_r[a - 1] && r@[b] == old_r[b - 1]);
                }
            }
        }
        i = i + 1;
    }
    assert(entries@.subrange(0, entries.len() as int) =~= entries@);
    r
}

/// No two entries share an id.
pub open spec fn distinct_ids(s: Seq<(u32, u8)>) -> bool {
    forall|i: int, j: int| 0 <= i < s.len() && 0 <= j < s.len() && i != j ==> s[i].0 != s[j].0
}

proof fn lemma_sorted_drop_first(s: Seq<(u32, u8)>, by_urgency: bool)
    requires
        stack_sorted(s, by_urgency),
        s.len() > 0,
    ensures
        stack_sorted(s.drop_first(), by_urgency),
{
    assert forall|i: int, j: int| 0 <= i < j < s.drop_first().len() implies stacks_before(
        s.drop_first()[i],
        s.drop_first()[j],
        by_urgency,
    ) by {
        assert(s.drop_first()[i] == s[i + 1] && s.drop_first()[j] == s[j + 1]);
    }
}

/// The stacking order depends only on the displayed notifications, not on
/// the order in which they are enumerated: two sorted arrangements of the
/// same entries are equal (when sorting by id alone, ids must be distinct).
pub proof fn law_stacking_order_is_unique(s: Seq<(u32, u8)>, t: Seq<(u32, u8)>, by_urgency: bool)
    requires
        stack_sorted(s, by_urgency),
        stack_sorted(t, by_urgency),
        s.to_multiset() == t.to_multiset(),
        by_urgency || distinct_ids(s),
    ensures
        s == t,
    decreases s.len(),
{
    broadcast use vstd::multiset::group_multiset_axioms;

    assert(s.to_multiset().len() == s.len());
    assert(t.to_multiset().len() == t.len());
    assert(s.len() == t.len());
    if s.len() > 0 {
        let a = s[0];
        let b = t[0];
        assert(s.contains(a));
        assert(t.to_multiset().count(a) > 0);
        assert(t.contains(a));
        let j = choose|j: int| 0 <= j < t.len() && t[j] == a;
        assert(t.contains(b));
        assert(s.to_multiset().count(b) > 0);
        assert(s.contains(b));
        let k = choose|k: int| 0 <= k < s.len() && s[k] == b;
        assert(j == 0 || stacks_before(b, a, by_urgency));
        assert(k == 0 || stacks_before(a, b, by_urgency));
        if !by_urgency {
            if a != b {
                assert(a.0 == b.0 || j == 0 || k == 0);
            }
        }
        assert(a == b);
        assert(s =~= seq![a] + s.drop_first());
        assert(t =~= seq![a] + t.drop_first());
        assert(s.drop_first() =~= s.remove(0));
        assert(t.drop_first() =~= t.remove(0));
        assert(s.drop_first().to_multiset() == t.drop_first().to_multiset());
        lemma_sorted_drop_first(s, by_urgency);
        lemma_sorted_drop_first(t, by_urgency);
        if !by_urgency {
            assert(distinct_ids(s.drop_first())) by {
                assert forall|i: int, j2: int|
                    0 <= i < s.drop_first().len() && 0 <= j2 < s.drop_first().len() && i != j2 implies s.drop_first()[i].0
                    != s.drop_first()[j2].0 by {
                    assert(s.drop_first()[i] == s[i + 1] && s.drop_first()[j2] == s[j2 + 1]);
                }
            }
        }
        law_stacking_order_is_unique(s.drop_first(), t.drop_first(), by_urgency);
        assert(s =~= t);
    }
}

/// Where one window of the stack goes: its id, position and size.
#[derive(Debug, Clone, Copy, PartialEq, Eq, Structural)]
pub struct WindowGeometry {
    pub id: u32,
    pub x: i32,
    pub y: i32,
    pub width: i32,
    pub height: i32,
}

/// The laid-out stack: window `i` of `ordered` (stacking order) gets the
/// size `sizes[i]` and the position [`stack_x`]/[`stack_y`] of entry `i`.
pub open spec fn layout_plan_spec(
    ordered: Seq<(u32, u8)>,
    sizes: Seq<(i32, i32)>,
    origin: Origin,
    offset: (i32, i32),
    gap: i32,
    m: MonitorGeometry,
) -> Seq<WindowGeometry> {
    Seq::new(
        ordered.len(),
        |i: int|
            WindowGeometry {
                id: ordered[i].0,
                x: stack_x(origin, offset, gap, m, sizes, i) as i32,
                y: stack_y(origin, offset, gap, m, sizes, i) as i32,
                width: sizes[i].0,
                height: sizes[i].1,
            },
    )
}

/// The geometry of every window of the stack, in stacking order; `None`
/// exactly when some position would overflow `i32`.
pub fn layout_plan(
    ordered: &Vec<(u32, u8)>,
    sizes: &Vec<(i32, i32)>,
    origin: Origin,
    offset: (i32, i32),
    gap: i32,
    monitor: MonitorGeometry,
) -> (r: Option<Vec<WindowGeometry>>)
    requires
        ordered@.len() == sizes@.len(),
    ensures
        r is None <==> exists|i: int|
            0 <= i < sizes@.len() && !#[trigger] stack_position_defined(
                origin,
                offset,
                gap,
                monitor,
                sizes@,
                i,
            ),
        r matches Some(v) ==> v@ == layout_plan_spec(ordered@, sizes@, origin, offset, gap, monitor),
{
    let positions = match place_stack_checked(origin, offset, gap, monitor, sizes) {
        None => {
            return None;
        },
        Some(p) => p,
    };
    let mut r: Vec<WindowGeometry> = Vec::new();
    let mut i: usize = 0;
    while i < ordered.len()
        invariant
            i <= ordered@.len(),
            ordered@.len() == sizes@.len(),
            positions@.len() == sizes@.len(),
            forall|j: int|
                0 <= j < positions@.len() ==> #[trigger] stack_position_defined(
                    origin,
                    offset,
                    gap,
                    monitor,
                    sizes@,
                    j,
                ) && positions@[j].0 == stack_x(origin, offset, gap, monitor, sizes@, j)
                    && positions@[j].1 == stack_y(origin, offset, gap, monitor, sizes@, j),
            r@ =~= layout_plan_spec(ordered@, sizes@, origin, offset, gap, monitor).subrange(
                0,
                i as int,
            ),
        decreases ordered@.len() - i,
    {
        assert(stack_position_defined(origin, offset, gap, monitor, sizes@, i as int));
        let (x, y) = positions[i];
        let (w, h) = sizes[i];
        r.push(WindowGeometry { id: ordered[i].0, x, y, width: w, height: h });
        i = i + 1;
    }
    assert(layout_plan_spec(ordered@, sizes@, origin, offset, gap, monitor).subrange(
        0,
        ordered@.len() as int,
    ) =~= layout_plan_spec(ordered@, sizes@, origin, offset, gap, monitor));
    Some(r)
}

/// Which monitor notifications go on.
#[derive(Debug, Clone, Copy, PartialEq, Eq, Structural)]
pub enum MonitorChoice {
    /// The monitor under the mouse pointer.
    Pointer,
    /// The monitor at this position in the display's monitor list.
    Index(usize),
}

/// First position whose connector contains `name`.
pub open spec fn first_connector_match(connectors: Seq<Option<Seq<char>>>, name: Seq<char>) -> Option<
    int,
>
    decreases connectors.len(),
{
    if connectors.len() == 0 {
        None
    } else if connectors[0] matches Some(c) && contains_text(c, name) {
        Some(0)
    } else {
        match first_connector_match(connectors.drop_first(), name) {
            Some(i) => Some(i + 1),
            None => None,
        }
    }
}

pub open spec fn connector_views(v: Seq<Option<String>>) -> Seq<Option<Seq<char>>> {
    v.map_values(
        |o: Option<String>|
            match o {
                Some(s) => Some(s@),
                None => None,
            },
    )
}

/// The monitor notifications are placed on, given the display's monitors
/// (by connector name) and whether the pointer is over one: following the
/// mouse picks the pointer's monitor; otherwise the configured number or
/// the first monitor whose connector contains the configured name; the
/// first monitor when nothing matches; none when there are no monitors.
pub open spec fn pick_monitor_spec(
    follow: Follow,
    monitor: MonitorView,
    connectors: Seq<Option<Seq<char>>>,
    pointer_on_monitor: bool,
) -> Option<MonitorChoice> {
    if connectors.len() == 0 {
        None
    } else {
        match follow {
            Follow::Mouse => Some(
                if pointer_on_monitor {
                    MonitorChoice::Pointer
                } else {
                    MonitorChoice::Index(0)
                },
            ),
            _ => match monitor {
                MonitorView::Number(n) => {
                    let i = if n < 0 {
                        0
                    } else {
                        n as int
                    };
                    Some(
                        MonitorChoice::Index(
                            if i < connectors.len() {
                                i as usize
                            } else {
                                0
                            },
                        ),
                    )
                },
                MonitorView::Name(name) => Some(
                    MonitorChoice::Index(
                        match first_connector_match(connectors, name) {
                            Some(i) => i as usize,
                            None => 0,
                        },
                    ),
                ),
            },
        }
    }
}

proof fn lemma_first_connector(s: Seq<Option<Seq<char>>>, name: Seq<char>, i: int)
    requires
        0 <= i <= s.len(),
        forall|j: int| 0 <= j < i ==> !(#[trigger] s[j] matches Some(c) && contains_text(c, name)),
    ensures
        i < s.len() && (s[i] matches Some(c) && contains_text(c, name)) ==> first_connector_match(
            s,
            name,
        ) == Some(i),
        i == s.len() ==> first_connector_match(s, name) is None,
    decreases i,
{
    if i > 0 {
        lemma_first_connector(s.drop_first(), name, i - 1);
    }
}

/// The picked monitor always exists, and a configured name picks the first
/// monitor whose connector contains it (the first monitor when none does);
/// a configured number in range picks that monitor.
pub proof fn law_picked_monitor_matches(
    follow: Follow,
    monitor: MonitorView,
    connectors: Seq<Option<Seq<char>>>,
    pointer_on_monitor: bool,
)
    requires
        connectors.len() <= usize::MAX,
    ensures
        ({
            let r = pick_monitor_spec(follow, monitor, connectors, pointer_on_monitor);
            &&& r is None <==> connectors.len() == 0
            &&& r matches Some(MonitorChoice::Index(i)) ==> i < connectors.len()
            &&& r is Some && follow == Follow::Mouse ==> (r == Some(MonitorChoice::Pointer)
                <==> pointer_on_monitor)
            &&& r is Some && follow != Follow::Mouse && monitor is Number && 0 <= monitor->Number_0
                < connectors.len() ==> r == Some(MonitorChoice::Index(monitor->Number_0 as usize))
            &&& r is Some && follow != Follow::Mouse && monitor is Name ==> ({
                let name = monitor->Name_0;
                let i = r->Some_0->Index_0 as int;
                &&& r->Some_0 is Index
                &&& ((connectors[i] matches Some(c) && contains_text(c, name)) && forall|j: int|
                    0 <= j < i ==> !(#[trigger] connectors[j] matches Some(d) && contains_text(
                        d,
                        name,
                    ))) || (i == 0 && forall|j: int|
                    0 <= j < connectors.len() ==> !(#[trigger] connectors[j] matches Some(d)
                        && contains_text(d, name)))
            })
        }),
{
    if connectors.len() > 0 {
        if let MonitorView::Name(name) = monitor {
            lemma_first_connector_props(connectors, name);
        }
    }
}

proof fn lemma_first_connector_props(s: Seq<Option<Seq<char>>>, name: Seq<char>)
    ensures
        first_connector_match(s, name) matches Some(i) ==> 0 <= i < s.len() && (s[i] matches Some(
            c) && contains_text(c, name)) && forall|j: int|
            0 <= j < i ==> !(#[trigger] s[j] matches Some(d) && contains_text(d, name)),
        first_connector_match(s, name) is None ==> forall|j: int|
            0 <= j < s.len() ==> !(#[trigger] s[j] matches Some(d) && contains_text(d, name)),
    decreases s.len(),
{
    if s.len() > 0 {
        let t = s.drop_first();
        lemma_first_connector_props(t, name);
        if !(s[0] matches Some(c) && contains_text(c, name)) {
            assert forall|j: int| 1 <= j < s.len() implies s[j] == #[trigger] t[j - 1] by {}
            match first_connector_match(t, name) {
                Some(k) => {
                    assert(s[k + 1] == t[k]);
                    assert forall|j: int| 0 <= j < k + 1 implies !(#[trigger] s[j] matches Some(d)
                        && contains_text(d, name)) by {
                        if j > 0 {
                            assert(s[j] == t[j - 1]);
                        }
                    }
                },
                None => {
                    assert forall|j: int| 0 <= j < s.len() implies !(#[trigger] s[j] matches Some(
                        d,
                    ) && contains_text(d, name)) by {
                        if j > 0 {
                            assert(s[j] == t[j - 1]);
                        }
                    }
                },
            }
        }
    }
}

/// Resolve the monitor to place notifications on, per `follow`/`monitor`.
pub fn pick_monitor(
    follow: Follow,
    monitor: &Monitor,
    connectors: &Vec<Option<String>>,
    pointer_on_monitor: bool,
) -> (r: Option<MonitorChoice>)
    ensures
        r == pick_monitor_spec(follow, monitor@, connector_views(connectors@), pointer_on_monitor),
{
    let ghost cv = connector_views(connectors@);
    if connectors.len() == 0 {
        return None;
    }
    match follow {
        Follow::Mouse => Some(
            if pointer_on_monitor {
                MonitorChoice::Pointer
            } else {
                MonitorChoice::Index(0)
            },
        ),
        _ => match monitor {
            Monitor::Number(n) => {
                let i: usize = if *n < 0 {
                    0
                } else {
                    *n as usize
                };
                Some(
                    MonitorChoice::Index(
                        if i < connectors.len() {
                            i
                        } else {
                            0
                        },
                    ),
                )
            },
            Monitor::Name(name) => {
                let needle = chars_of(name.as_str());
                let mut i: usize = 0;
                while i < connectors.len()
                    invariant
                        i <= connectors.len(),
                        cv == connector_views(connectors@),
                        needle@ == name@,
                        connectors.len() > 0,
                        follow != Follow::Mouse,
                        monitor@ == MonitorView::Name(name@),
                        forall|j: int|
                            0 <= j < i ==> !(#[trigger] cv[j] matches Some(c) && contains_text(
                                c,
                                name@,
                            )),
                    decreases connectors.len() - i,
                {
                    let hit = match &connectors[i] {
                        Some(c) => {
                            let hay = chars_of(c.as_str());
                            contains_chars(&hay, &needle)
                        },
                        None => false,
                    };
                    if hit {
                        proof {
                            assert(cv[i as int] == match connectors@[i as int] {
                                Some(s) => Some(s@),
                                None => None,
                            });
                            lemma_first_connector(cv, name@, i as int);
                        }
                        return Some(MonitorChoice::Index(i));
                    }
                    i = i + 1;
                }
                proof {
                    lemma_first_connector(cv, name@, i as int);
                }
                Some(MonitorChoice::Index(0))
            },
        },
    }
}

} // verus!
