//! Applying one `key = value` line of a dunstrc section to the
//! configuration.

use vstd::prelude::*;
use crate::text::{all_digits, chars_of, is_lit, push_chars, push_lit, string_of};
use crate::config::{
    Config, ConfigView, GlobalConfig, GlobalView, Monitor, MonitorView, MouseAction, SizeSpec,
    SizeSpecView, UrgencyConfig,
};
use crate::values::{
    alignment_value, bool_value, color_value, ellipsize_value, follow_value, geometry_value,
    icon_position_value, int_value, markup_value, mouse_actions_value, offset_value,
    origin_from_signs, origin_from_signs_spec, origin_value, parse_alignment, parse_bool,
    parse_color, parse_ellipsize, parse_follow, parse_geometry, parse_icon_position, parse_int,
    parse_markup, parse_mouse_actions, parse_offset, parse_origin, parse_size,
    parse_vertical_alignment, quoted_msg, size_value, vertical_alignment_value,
};

verus! {

/// Applies a parse result to a setting: the updated value, or the warning.
pub open spec fn lift<T, S>(r: Result<T, Seq<char>>, f: spec_fn(T) -> S) -> Result<S, Seq<char>> {
    match r {
        Ok(x) => Ok(f(x)),
        Err(e) => Err(e),
    }
}

/// How an executable update relates to its specification `s`: the new
/// value, or the same warning with the value unchanged.
pub open spec fn applied_to<T>(
    r: Result<(), Vec<char>>,
    before: T,
    after: T,
    s: Result<T, Seq<char>>,
) -> bool {
    match s {
        Ok(v) => r == Ok::<(), Vec<char>>(()) && after == v,
        Err(e) => (r matches Err(m) && m@ == e) && after == before,
    }
}

/// `n.max(0) as usize`
pub open spec fn non_negative(n: i32) -> usize {
    if n < 0 {
        0
    } else {
        n as usize
    }
}

/// `n.clamp(0, 100) as u8`
pub open spec fn percent_clamp(n: i32) -> u8 {
    if n < 0 {
        0
    } else if n > 100 {
        100
    } else {
        n as u8
    }
}

/// `i32::abs` (defined except for `i32::MIN`).
pub open spec fn abs_i32(x: i32) -> i32 {
    if x < 0 {
        (-x) as i32
    } else {
        x
    }
}

fn abs(x: i32) -> (r: i32)
    requires
        x != i32::MIN,
    ensures
        r == abs_i32(x),
{
    if x < 0 {
        -x
    } else {
        x
    }
}

fn all_digit_text(v: &Vec<char>) -> (r: bool)
    ensures
        r == all_digits(v@),
{
    let mut i: usize = 0;
    while i < v.len()
        invariant
            i <= v.len(),
            forall|j: int| 0 <= j < i ==> crate::text::is_digit(#[trigger] v@[j]),
        decreases v.len() - i,
    {
        if !('0' <= v[i] && v[i] <= '9') {
            assert(!crate::text::is_digit(v@[i as int]));
            return false;
        }
        i = i + 1;
    }
    true
}

/// Effect of `width = v` on the `[global]` section.
pub open spec fn global_width_spec(g: GlobalView, v: Seq<char>) -> Result<GlobalView, Seq<char>> {
    lift(size_value(v), |s: SizeSpecView| GlobalView { width: s, ..g })
}

fn set_width(g: &mut GlobalConfig, value: &Vec<char>) -> (r: Result<(), Vec<char>>)
    ensures
        applied_to(r, old(g)@, final(g)@, global_width_spec(old(g)@, value@)),
{
    match parse_size(value) {
        Ok(x) => {
            g.width = x;
            Ok(())
        },
        Err(e) => Err(e),
    }
}

/// Effect of `height = v` on the `[global]` section.
pub open spec fn global_height_spec(g: GlobalView, v: Seq<char>) -> Result<GlobalView, Seq<char>> {
    lift(size_value(v), |s: SizeSpecView| GlobalView { height: s, ..g })
}

fn set_height(g: &mut GlobalConfig, value: &Vec<char>) -> (r: Result<(), Vec<char>>)
    ensures
        applied_to(r, old(g)@, final(g)@, global_height_spec(old(g)@, value@)),
{
    match parse_size(value) {
        Ok(x) => {
            g.height = x;
            Ok(())
        },
        Err(e) => Err(e),
    }
}

/// Effect of `origin = v` on the `[global]` section.
pub open spec fn global_origin_spec(g: GlobalView, v: Seq<char>) -> Result<GlobalView, Seq<char>> {
    lift(origin_value(v), |x| GlobalView { origin: x, ..g })
}

fn set_origin(g: &mut GlobalConfig, value: &Vec<char>) -> (r: Result<(), Vec<char>>)
    ensures
        applied_to(r, old(g)@, final(g)@, global_origin_spec(old(g)@, value@)),
{
    match parse_origin(value) {
        Ok(x) => {
            g.origin = x;
            Ok(())
        },
        Err(e) => Err(e),
    }
}

/// Effect of `offset = v` on the `[global]` section.
pub open spec fn global_offset_spec(g: GlobalView, v: Seq<char>) -> Result<GlobalView, Seq<char>> {
    lift(offset_value(v), |o: (i32, i32)| GlobalView { offset: o, ..g })
}

fn set_offset(g: &mut GlobalConfig, value: &Vec<char>) -> (r: Result<(), Vec<char>>)
    ensures
        applied_to(r, old(g)@, final(g)@, global_offset_spec(old(g)@, value@)),
{
    match parse_offset(value) {
        Ok(x) => {
            g.offset = x;
            Ok(())
        },
        Err(e) => Err(e),
    }
}

/// Effect of `geometry = v` on the `[global]` section.
pub open spec fn global_geometry_spec(g: GlobalView, v: Seq<char>) -> Result<GlobalView, Seq<char>> {
    match geometry_value(v) {
        Err(e) => Err(e),
        Ok((w, h, x, y)) => if x == i32::MIN || y == i32::MIN {
            Err(quoted_msg("offset out of range in geometry "@, crate::text::trim(v)))
        } else {
            Ok(
                    GlobalView {
                        width: SizeSpecView::Constant(w),
                        height: SizeSpecView::Constant(h),
                        origin: origin_from_signs_spec(x, y),
                        offset: (abs_i32(x), abs_i32(y)),
                        ..g
                    },
                )
        },
    }
}

fn set_geometry(g: &mut GlobalConfig, value: &Vec<char>) -> (r: Result<(), Vec<char>>)
    ensures
        applied_to(r, old(g)@, final(g)@, global_geometry_spec(old(g)@, value@)),
{
    match parse_geometry(value) {
        Ok((w, h, x, y)) => {
            if x == i32::MIN || y == i32::MIN {
                let t = crate::text::trim_chars(value);
                return Err(crate::values::msg("offset out of range in geometry ", &t));
            }
            g.width = SizeSpec::Constant(w);
            g.height = SizeSpec::Constant(h);
            g.origin = origin_from_signs(x, y);
            g.offset = (abs(x), abs(y));
            Ok(())
        },
        Err(e) => Err(e),
    }
}

/// Effect of `gap_size = v` on the `[global]` section.
pub open spec fn global_gap_size_spec(g: GlobalView, v: Seq<char>) -> Result<GlobalView, Seq<char>> {
    lift(int_value(v), |n: i32| GlobalView { gap_size: n, ..g })
}

fn set_gap_size(g: &mut GlobalConfig, value: &Vec<char>) -> (r: Result<(), Vec<char>>)
    ensures
        applied_to(r, old(g)@, final(g)@, global_gap_size_spec(old(g)@, value@)),
{
    match parse_int(value) {
        Ok(x) => {
            g.gap_size = x;
            Ok(())
        },
        Err(e) => Err(e),
    }
}

/// Effect of `corner_radius = v` on the `[global]` section.
pub open spec fn global_corner_radius_spec(g: GlobalView, v: Seq<char>) -> Result<GlobalView, Seq<char>> {
    lift(int_value(v), |n: i32| GlobalView { corner_radius: n, ..g })
}

fn set_corner_radius(g: &mut GlobalConfig, value: &Vec<char>) -> (r: Result<(), Vec<char>>)
    ensures
        applied_to(r, old(g)@, final(g)@, global_corner_radius_spec(old(g)@, value@)),
{
    match parse_int(value) {
        Ok(x) => {
            g.corner_radius = x;
            Ok(())
        },
        Err(e) => Err(e),
    }
}

/// Effect of `frame_width = v` on the `[global]` section.
pub open spec fn global_frame_width_spec(g: GlobalView, v: Seq<char>) -> Result<GlobalView, Seq<char>> {
    lift(int_value(v), |n: i32| GlobalView { frame_width: n, ..g })
}

fn set_frame_width(g: &mut GlobalConfig, value: &Vec<char>) -> (r: Result<(), Vec<char>>)
    ensures
        applied_to(r, old(g)@, final(g)@, global_frame_width_spec(old(g)@, value@)),
{
    match parse_int(value) {
        Ok(x) => {
            g.frame_width = x;
            Ok(())
        },
        Err(e) => Err(e),
    }
}

/// Effect of `frame_color = v` on the `[global]` section.
pub open spec fn global_frame_color_spec(g: GlobalView, v: Seq<char>) -> Result<GlobalView, Seq<char>> {
    match color_value(v) {
        Ok(c) => Ok(GlobalView { frame_color: c, ..g }),
        Err(e) => Err(e),
    }
}

fn set_frame_color(g: &mut GlobalConfig, value: &Vec<char>) -> (r: Result<(), Vec<char>>)
    ensures
        applied_to(r, old(g)@, final(g)@, global_frame_color_spec(old(g)@, value@)),
{
    match parse_color(value) {
        Ok(c) => {
            g.frame_color = c;
            Ok(())
        },
        Err(e) => Err(e),
    }
}

pub open spec fn is_layout_key(k: Seq<char>) -> bool {
    k == "width"@ || k == "height"@ || k == "origin"@ || k == "offset"@ || k == "geometry"@ || k == "gap_size"@ || k == "corner_radius"@ || k == "frame_width"@ || k == "frame_color"@
}

/// Effect of a `[global]` key of the layout group.
pub open spec fn group_layout_spec(g: GlobalView, k: Seq<char>, v: Seq<char>) -> Result<GlobalView, Seq<char>> {
    if k == "width"@ {
        global_width_spec(g, v)
    } else if k == "height"@ {
        global_height_spec(g, v)
    } else if k == "origin"@ {
        global_origin_spec(g, v)
    } else if k == "offset"@ {
        global_offset_spec(g, v)
    } else if k == "geometry"@ {
        global_geometry_spec(g, v)
    } else if k == "gap_size"@ {
        global_gap_size_spec(g, v)
    } else if k == "corner_radius"@ {
        global_corner_radius_spec(g, v)
    } else if k == "frame_width"@ {
        global_frame_width_spec(g, v)
    } else {
        global_frame_color_spec(g, v)
    }
}

fn is_layout_key_text(key: &Vec<char>) -> (r: bool)
    ensures
        r == is_layout_key(key@),
{
    is_lit(key, "width") || is_lit(key, "height") || is_lit(key, "origin") || is_lit(key, "offset") || is_lit(key, "geometry") || is_lit(key, "gap_size") || is_lit(key, "corner_radius") || is_lit(key, "frame_width") || is_lit(key, "frame_color")
}

fn apply_global_layout(g: &mut GlobalConfig, key: &Vec<char>, value: &Vec<char>) -> (r: Result<(), Vec<char>>)
    requires
        is_layout_key(key@),
    ensures
        applied_to(r, old(g)@, final(g)@, group_layout_spec(old(g)@, key@, value@)),
{
    if is_lit(key, "width") {
        set_width(g, value)
    } else if is_lit(key, "height") {
        set_height(g, value)
    } else if is_lit(key, "origin") {
        set_origin(g, value)
    } else if is_lit(key, "offset") {
        set_offset(g, value)
    } else if is_lit(key, "geometry") {
        set_geometry(g, value)
    } else if is_lit(key, "gap_size") {
        set_gap_size(g, value)
    } else if is_lit(key, "corner_radius") {
        set_corner_radius(g, value)
    } else if is_lit(key, "frame_width") {
        set_frame_width(g, value)
    } else {
        set_frame_color(g, value)
    }
}

/// Effect of `font = v` on the `[global]` section.
pub open spec fn global_font_spec(g: GlobalView, v: Seq<char>) -> Result<GlobalView, Seq<char>> {
    Ok(GlobalView { font: v, ..g })
}

fn set_font(g: &mut GlobalConfig, value: &Vec<char>) -> (r: Result<(), Vec<char>>)
    ensures
        applied_to(r, old(g)@, final(g)@, global_font_spec(old(g)@, value@)),
{
    g.font = string_of(value);
    Ok(())
}

/// Effect of `markup = v` on the `[global]` section.
pub open spec fn global_markup_spec(g: GlobalView, v: Seq<char>) -> Result<GlobalView, Seq<char>> {
    lift(markup_value(v), |x| GlobalView { markup: x, ..g })
}

fn set_markup(g: &mut GlobalConfig, value: &Vec<char>) -> (r: Result<(), Vec<char>>)
    ensures
        applied_to(r, old(g)@, final(g)@, global_markup_spec(old(g)@, value@)),
{
    match parse_markup(value) {
        Ok(x) => {
            g.markup = x;
            Ok(())
        },
        Err(e) => Err(e),
    }
}

/// Effect of `word_wrap = v` on the `[global]` section.
pub open spec fn global_word_wrap_spec(g: GlobalView, v: Seq<char>) -> Result<GlobalView, Seq<char>> {
    lift(bool_value(v), |b: bool| GlobalView { word_wrap: b, ..g })
}

fn set_word_wrap(g: &mut GlobalConfig, value: &Vec<char>) -> (r: Result<(), Vec<char>>)
    ensures
        applied_to(r, old(g)@, final(g)@, global_word_wrap_spec(old(g)@, value@)),
{
    match parse_bool(value) {
        Ok(x) => {
            g.word_wrap = x;
            Ok(())
        },
        Err(e) => Err(e),
    }
}

/// Effect of `ellipsize = v` on the `[global]` section.
pub open spec fn global_ellipsize_spec(g: GlobalView, v: Seq<char>) -> Result<GlobalView, Seq<char>> {
    lift(ellipsize_value(v), |x| GlobalView { ellipsize: x, ..g })
}

fn set_ellipsize(g: &mut GlobalConfig, value: &Vec<char>) -> (r: Result<(), Vec<char>>)
    ensures
        applied_to(r, old(g)@, final(g)@, global_ellipsize_spec(old(g)@, value@)),
{
    match parse_ellipsize(value) {
        Ok(x) => {
            g.ellipsize = x;
            Ok(())
        },
        Err(e) => Err(e),
    }
}

/// Effect of `alignment = v` on the `[global]` section.
pub open spec fn global_alignment_spec(g: GlobalView, v: Seq<char>) -> Result<GlobalView, Seq<char>> {
    lift(alignment_value(v), |x| GlobalView { alignment: x, ..g })
}

fn set_alignment(g: &mut GlobalConfig, value: &Vec<char>) -> (r: Result<(), Vec<char>>)
    ensures
        applied_to(r, old(g)@, final(g)@, global_alignment_spec(old(g)@, value@)),
{
    match parse_alignment(value) {
        Ok(x) => {
            g.alignment = x;
            Ok(())
        },
        Err(e) => Err(e),
    }
}

/// Effect of `vertical_alignment = v` on the `[global]` section.
pub open spec fn global_vertical_alignment_spec(g: GlobalView, v: Seq<char>) -> Result<GlobalView, Seq<char>> {
    lift(vertical_alignment_value(v), |x| GlobalView { vertical_alignment: x, ..g })
}

fn set_vertical_alignment(g: &mut GlobalConfig, value: &Vec<char>) -> (r: Result<(), Vec<char>>)
    ensures
        applied_to(r, old(g)@, final(g)@, global_vertical_alignment_spec(old(g)@, value@)),
{
    match parse_vertical_alignment(value) {
        Ok(x) => {
            g.vertical_alignment = x;
            Ok(())
        },
        Err(e) => Err(e),
    }
}

pub open spec fn is_text_key(k: Seq<char>) -> bool {
    k == "font"@ || k == "markup"@ || k == "word_wrap"@ || k == "ellipsize"@ || k == "alignment"@ || k == "vertical_alignment"@
}

/// Effect of a `[global]` key of the text group.
pub open spec fn group_text_spec(g: GlobalView, k: Seq<char>, v: Seq<char>) -> Result<GlobalView, Seq<char>> {
    if k == "font"@ {
        global_font_spec(g, v)
    } else if k == "markup"@ {
        global_markup_spec(g, v)
    } else if k == "word_wrap"@ {
        global_word_wrap_spec(g, v)
    } else if k == "ellipsize"@ {
        global_ellipsize_spec(g, v)
    } else if k == "alignment"@ {
        global_alignment_spec(g, v)
    } else {
        global_vertical_alignment_spec(g, v)
    }
}

fn is_text_key_text(key: &Vec<char>) -> (r: bool)
    ensures
        r == is_text_key(key@),
{
    is_lit(key, "font") || is_lit(key, "markup") || is_lit(key, "word_wrap") || is_lit(key, "ellipsize") || is_lit(key, "alignment") || is_lit(key, "vertical_alignment")
}

fn apply_global_text(g: &mut GlobalConfig, key: &Vec<char>, value: &Vec<char>) -> (r: Result<(), Vec<char>>)
    requires
        is_text_key(key@),
    ensures
        applied_to(r, old(g)@, final(g)@, group_text_spec(old(g)@, key@, value@)),
{
    if is_lit(key, "font") {
        set_font(g, value)
    } else if is_lit(key, "markup") {
        set_markup(g, value)
    } else if is_lit(key, "word_wrap") {
        set_word_wrap(g, value)
    } else if is_lit(key, "ellipsize") {
        set_ellipsize(g, value)
    } else if is_lit(key, "alignment") {
        set_alignment(g, value)
    } else {
        set_vertical_alignment(g, value)
    }
}

/// Effect of `icons = v` on the `[global]` section.
pub open spec fn global_icons_spec(g: GlobalView, v: Seq<char>) -> Result<GlobalView, Seq<char>> {
    lift(bool_value(v), |b: bool| GlobalView { icons: b, ..g })
}

fn set_icons(g: &mut GlobalConfig, value: &Vec<char>) -> (r: Result<(), Vec<char>>)
    ensures
        applied_to(r, old(g)@, final(g)@, global_icons_spec(old(g)@, value@)),
{
    match parse_bool(value) {
        Ok(x) => {
            g.icons = x;
            Ok(())
        },
        Err(e) => Err(e),
    }
}

/// Effect of `icon_position = v` on the `[global]` section.
pub open spec fn global_icon_position_spec(g: GlobalView, v: Seq<char>) -> Result<GlobalView, Seq<char>> {
    lift(icon_position_value(v), |x| GlobalView { icon_position: x, ..g })
}

fn set_icon_position(g: &mut GlobalConfig, value: &Vec<char>) -> (r: Result<(), Vec<char>>)
    ensures
        applied_to(r, old(g)@, final(g)@, global_icon_position_spec(old(g)@, value@)),
{
    match parse_icon_position(value) {
        Ok(x) => {
            g.icon_position = x;
            Ok(())
        },
        Err(e) => Err(e),
    }
}

/// Effect of `min_icon_size = v` on the `[global]` section.
pub open spec fn global_min_icon_size_spec(g: GlobalView, v: Seq<char>) -> Result<GlobalView, Seq<char>> {
    lift(int_value(v), |n: i32| GlobalView { min_icon_size: n, ..g })
}

fn set_min_icon_size(g: &mut GlobalConfig, value: &Vec<char>) -> (r: Result<(), Vec<char>>)
    ensures
        applied_to(r, old(g)@, final(g)@, global_min_icon_size_spec(old(g)@, value@)),
{
    match parse_int(value) {
        Ok(x) => {
            g.min_icon_size = x;
            Ok(())
        },
        Err(e) => Err(e),
    }
}

/// Effect of `max_icon_size = v` on the `[global]` section.
pub open spec fn global_max_icon_size_spec(g: GlobalView, v: Seq<char>) -> Result<GlobalView, Seq<char>> {
    lift(int_value(v), |n: i32| GlobalView { max_icon_size: n, ..g })
}

fn set_max_icon_size(g: &mut GlobalConfig, value: &Vec<char>) -> (r: Result<(), Vec<char>>)
    ensures
        applied_to(r, old(g)@, final(g)@, global_max_icon_size_spec(old(g)@, value@)),
{
    match parse_int(value) {
        Ok(x) => {
            g.max_icon_size = x;
            Ok(())
        },
        Err(e) => Err(e),
    }
}

/// Effect of `padding = v` on the `[global]` section.
pub open spec fn global_padding_spec(g: GlobalView, v: Seq<char>) -> Result<GlobalView, Seq<char>> {
    lift(int_value(v), |n: i32| GlobalView { padding: n, ..g })
}

fn set_padding(g: &mut GlobalConfig, value: &Vec<char>) -> (r: Result<(), Vec<char>>)
    ensures
        applied_to(r, old(g)@, final(g)@, global_padding_spec(old(g)@, value@)),
{
    match parse_int(value) {
        Ok(x) => {
            g.padding = x;
            Ok(())
        },
        Err(e) => Err(e),
    }
}

/// Effect of `horizontal_padding = v` on the `[global]` section.
pub open spec fn global_horizontal_padding_spec(g: GlobalView, v: Seq<char>) -> Result<GlobalView, Seq<char>> {
    lift(int_value(v), |n: i32| GlobalView { horizontal_padding: n, ..g })
}

fn set_horizontal_padding(g: &mut GlobalConfig, value: &Vec<char>) -> (r: Result<(), Vec<char>>)
    ensures
        applied_to(r, old(g)@, final(g)@, global_horizontal_padding_spec(old(g)@, value@)),
{
    match parse_int(value) {
        Ok(x) => {
            g.horizontal_padding = x;
            Ok(())
        },
        Err(e) => Err(e),
    }
}

/// Effect of `text_icon_padding = v` on the `[global]` section.
pub open spec fn global_text_icon_padding_spec(g: GlobalView, v: Seq<char>) -> Result<GlobalView, Seq<char>> {
    lift(int_value(v), |n: i32| GlobalView { text_icon_padding: n, ..g })
}

fn set_text_icon_padding(g: &mut GlobalConfig, value: &Vec<char>) -> (r: Result<(), Vec<char>>)
    ensures
        applied_to(r, old(g)@, final(g)@, global_text_icon_padding_spec(old(g)@, value@)),
{
    match parse_int(value) {
        Ok(x) => {
            g.text_icon_padding = x;
            Ok(())
        },
        Err(e) => Err(e),
    }
}

/// Effect of `progress_bar = v` on the `[global]` section.
pub open spec fn global_progress_bar_spec(g: GlobalView, v: Seq<char>) -> Result<GlobalView, Seq<char>> {
    lift(bool_value(v), |b: bool| GlobalView { progress_bar: b, ..g })
}

fn set_progress_bar(g: &mut GlobalConfig, value: &Vec<char>) -> (r: Result<(), Vec<char>>)
    ensures
        applied_to(r, old(g)@, final(g)@, global_progress_bar_spec(old(g)@, value@)),
{
    match parse_bool(value) {
        Ok(x) => {
            g.progress_bar = x;
            Ok(())
        },
        Err(e) => Err(e),
    }
}

/// Effect of `progress_bar_height = v` on the `[global]` section.
pub open spec fn global_progress_bar_height_spec(g: GlobalView, v: Seq<char>) -> Result<GlobalView, Seq<char>> {
    lift(int_value(v), |n: i32| GlobalView { progress_bar_height: n, ..g })
}

fn set_progress_bar_height(g: &mut GlobalConfig, value: &Vec<char>) -> (r: Result<(), Vec<char>>)
    ensures
        applied_to(r, old(g)@, final(g)@, global_progress_bar_height_spec(old(g)@, value@)),
{
    match parse_int(value) {
        Ok(x) => {
            g.progress_bar_height = x;
            Ok(())
        },
        Err(e) => Err(e),
    }
}

/// Effect of `progress_bar_frame_width = v` on the `[global]` section.
pub open spec fn global_progress_bar_frame_width_spec(g: GlobalView, v: Seq<char>) -> Result<GlobalView, Seq<char>> {
    lift(int_value(v), |n: i32| GlobalView { progress_bar_frame_width: n, ..g })
}

fn set_progress_bar_frame_width(g: &mut GlobalConfig, value: &Vec<char>) -> (r: Result<(), Vec<char>>)
    ensures
        applied_to(r, old(g)@, final(g)@, global_progress_bar_frame_width_spec(old(g)@, value@)),
{
    match parse_int(value) {
        Ok(x) => {
            g.progress_bar_frame_width = x;
            Ok(())
        },
        Err(e) => Err(e),
    }
}

/// Effect of `progress_bar_min_width = v` on the `[global]` section.
pub open spec fn global_progress_bar_min_width_spec(g: GlobalView, v: Seq<char>) -> Result<GlobalView, Seq<char>> {
    lift(int_value(v), |n: i32| GlobalView { progress_bar_min_width: n, ..g })
}

fn set_progress_bar_min_width(g: &mut GlobalConfig, value: &Vec<char>) -> (r: Result<(), Vec<char>>)
    ensures
        applied_to(r, old(g)@, final(g)@, global_progress_bar_min_width_spec(old(g)@, value@)),
{
    match parse_int(value) {
        Ok(x) => {
            g.progress_bar_min_width = x;
            Ok(())
        },
        Err(e) => Err(e),
    }
}

/// Effect of `progress_bar_max_width = v` on the `[global]` section.
pub open spec fn global_progress_bar_max_width_spec(g: GlobalView, v: Seq<char>) -> Result<GlobalView, Seq<char>> {
    lift(int_value(v), |n: i32| GlobalView { progress_bar_max_width: n, ..g })
}

fn set_progress_bar_max_width(g: &mut GlobalConfig, value: &Vec<char>) -> (r: Result<(), Vec<char>>)
    ensures
        applied_to(r, old(g)@, final(g)@, global_progress_bar_max_width_spec(old(g)@, value@)),
{
    match parse_int(value) {
        Ok(x) => {
            g.progress_bar_max_width = x;
            Ok(())
        },
        Err(e) => Err(e),
    }
}

pub open spec fn is_icons_key(k: Seq<char>) -> bool {
    k == "icons"@ || k == "icon_position"@ || k == "min_icon_size"@ || k == "max_icon_size"@ || k == "padding"@ || k == "horizontal_padding"@ || k == "text_icon_padding"@ || k == "progress_bar"@ || k == "progress_bar_height"@ || k == "progress_bar_frame_width"@ || k == "progress_bar_min_width"@ || k == "progress_bar_max_width"@
}

/// Effect of a `[global]` key of the icons group.
pub open spec fn group_icons_spec(g: GlobalView, k: Seq<char>, v: Seq<char>) -> Result<GlobalView, Seq<char>> {
    if k == "icons"@ {
        global_icons_spec(g, v)
    } else if k == "icon_position"@ {
        global_icon_position_spec(g, v)
    } else if k == "min_icon_size"@ {
        global_min_icon_size_spec(g, v)
    } else if k == "max_icon_size"@ {
        global_max_icon_size_spec(g, v)
    } else if k == "padding"@ {
        global_padding_spec(g, v)
    } else if k == "horizontal_padding"@ {
        global_horizontal_padding_spec(g, v)
    } else if k == "text_icon_padding"@ {
        global_text_icon_padding_spec(g, v)
    } else if k == "progress_bar"@ {
        global_progress_bar_spec(g, v)
    } else if k == "progress_bar_height"@ {
        global_progress_bar_height_spec(g, v)
    } else if k == "progress_bar_frame_width"@ {
        global_progress_bar_frame_width_spec(g, v)
    } else if k == "progress_bar_min_width"@ {
        global_progress_bar_min_width_spec(g, v)
    } else {
        global_progress_bar_max_width_spec(g, v)
    }
}

fn is_icons_key_text(key: &Vec<char>) -> (r: bool)
    ensures
        r == is_icons_key(key@),
{
    is_lit(key, "icons") || is_lit(key, "icon_position") || is_lit(key, "min_icon_size") || is_lit(key, "max_icon_size") || is_lit(key, "padding") || is_lit(key, "horizontal_padding") || is_lit(key, "text_icon_padding") || is_lit(key, "progress_bar") || is_lit(key, "progress_bar_height") || is_lit(key, "progress_bar_frame_width") || is_lit(key, "progress_bar_min_width") || is_lit(key, "progress_bar_max_width")
}

fn apply_global_icons(g: &mut GlobalConfig, key: &Vec<char>, value: &Vec<char>) -> (r: Result<(), Vec<char>>)
    requires
        is_icons_key(key@),
    ensures
        applied_to(r, old(g)@, final(g)@, group_icons_spec(old(g)@, key@, value@)),
{
    if is_lit(key, "icons") {
        set_icons(g, value)
    } else if is_lit(key, "icon_position") {
        set_icon_position(g, value)
    } else if is_lit(key, "min_icon_size") {
        set_min_icon_size(g, value)
    } else if is_lit(key, "max_icon_size") {
        set_max_icon_size(g, value)
    } else if is_lit(key, "padding") {
        set_padding(g, value)
    } else if is_lit(key, "horizontal_padding") {
        set_horizontal_padding(g, value)
    } else if is_lit(key, "text_icon_padding") {
        set_text_icon_padding(g, value)
    } else if is_lit(key, "progress_bar") {
        set_progress_bar(g, value)
    } else if is_lit(key, "progress_bar_height") {
        set_progress_bar_height(g, value)
    } else if is_lit(key, "progress_bar_frame_width") {
        set_progress_bar_frame_width(g, value)
    } else if is_lit(key, "progress_bar_min_width") {
        set_progress_bar_min_width(g, value)
    } else {
        set_progress_bar_max_width(g, value)
    }
}

/// Effect of `history_length = v` on the `[global]` section.
pub open spec fn global_history_length_spec(g: GlobalView, v: Seq<char>) -> Result<GlobalView, Seq<char>> {
    lift(int_value(v), |n: i32| GlobalView { history_length: non_negative(n), ..g })
}

fn set_history_length(g: &mut GlobalConfig, value: &Vec<char>) -> (r: Result<(), Vec<char>>)
    ensures
        applied_to(r, old(g)@, final(g)@, global_history_length_spec(old(g)@, value@)),
{
    match parse_int(value) {
        Ok(x) => {
            g.history_length = if x < 0 { 0 } else { x as usize };
            Ok(())
        },
        Err(e) => Err(e),
    }
}

/// Effect of `transparency = v` on the `[global]` section.
pub open spec fn global_transparency_spec(g: GlobalView, v: Seq<char>) -> Result<GlobalView, Seq<char>> {
    lift(int_value(v), |n: i32| GlobalView { transparency: percent_clamp(n), ..g })
}

fn set_transparency(g: &mut GlobalConfig, value: &Vec<char>) -> (r: Result<(), Vec<char>>)
    ensures
        applied_to(r, old(g)@, final(g)@, global_transparency_spec(old(g)@, value@)),
{
    match parse_int(value) {
        Ok(x) => {
            g.transparency = if x < 0 { 0 } else if x > 100 { 100 } else { x as u8 };
            Ok(())
        },
        Err(e) => Err(e),
    }
}

/// Effect of `monitor = v` on the `[global]` section.
pub open spec fn global_monitor_spec(g: GlobalView, v: Seq<char>) -> Result<GlobalView, Seq<char>> {
    if all_digits(v) {
        lift(int_value(v), |n: i32| GlobalView { monitor: MonitorView::Number(n), ..g })
    } else {
        Ok(GlobalView { monitor: MonitorView::Name(v), ..g })
    }
}

fn set_monitor(g: &mut GlobalConfig, value: &Vec<char>) -> (r: Result<(), Vec<char>>)
    ensures
        applied_to(r, old(g)@, final(g)@, global_monitor_spec(old(g)@, value@)),
{
    if all_digit_text(value) {
        match parse_int(value) {
            Ok(x) => {
                g.monitor = Monitor::Number(x);
                Ok(())
            },
            Err(e) => Err(e),
        }
    } else {
        g.monitor = Monitor::Name(string_of(value));
        Ok(())
    }
}

/// Effect of `follow = v` on the `[global]` section.
pub open spec fn global_follow_spec(g: GlobalView, v: Seq<char>) -> Result<GlobalView, Seq<char>> {
    lift(follow_value(v), |x| GlobalView { follow: x, ..g })
}

fn set_follow(g: &mut GlobalConfig, value: &Vec<char>) -> (r: Result<(), Vec<char>>)
    ensures
        applied_to(r, old(g)@, final(g)@, global_follow_spec(old(g)@, value@)),
{
    match parse_follow(value) {
        Ok(x) => {
            g.follow = x;
            Ok(())
        },
        Err(e) => Err(e),
    }
}

/// Effect of `notification_limit = v` on the `[global]` section.
pub open spec fn global_notification_limit_spec(g: GlobalView, v: Seq<char>) -> Result<GlobalView, Seq<char>> {
    lift(int_value(v), |n: i32| GlobalView { notification_limit: non_negative(n), ..g })
}

fn set_notification_limit(g: &mut GlobalConfig, value: &Vec<char>) -> (r: Result<(), Vec<char>>)
    ensures
        applied_to(r, old(g)@, final(g)@, global_notification_limit_spec(old(g)@, value@)),
{
    match parse_int(value) {
        Ok(x) => {
            g.notification_limit = if x < 0 { 0 } else { x as usize };
            Ok(())
        },
        Err(e) => Err(e),
    }
}

/// Effect of `sort = v` on the `[global]` section.
pub open spec fn global_sort_spec(g: GlobalView, v: Seq<char>) -> Result<GlobalView, Seq<char>> {
    lift(bool_value(v), |b: bool| GlobalView { sort: b, ..g })
}

fn set_sort(g: &mut GlobalConfig, value: &Vec<char>) -> (r: Result<(), Vec<char>>)
    ensures
        applied_to(r, old(g)@, final(g)@, global_sort_spec(old(g)@, value@)),
{
    match parse_bool(value) {
        Ok(x) => {
            g.sort = x;
            Ok(())
        },
        Err(e) => Err(e),
    }
}

/// Effect of `mouse_left_click = v` on the `[global]` section.
pub open spec fn global_mouse_left_click_spec(g: GlobalView, v: Seq<char>) -> Result<GlobalView, Seq<char>> {
    lift(mouse_actions_value(v), |a: Seq<MouseAction>| GlobalView { mouse_left_click: a, ..g })
}

fn set_mouse_left_click(g: &mut GlobalConfig, value: &Vec<char>) -> (r: Result<(), Vec<char>>)
    ensures
        applied_to(r, old(g)@, final(g)@, global_mouse_left_click_spec(old(g)@, value@)),
{
    match parse_mouse_actions(value) {
        Ok(x) => {
            g.mouse_left_click = x;
            Ok(())
        },
        Err(e) => Err(e),
    }
}

/// Effect of `mouse_middle_click = v` on the `[global]` section.
pub open spec fn global_mouse_middle_click_spec(g: GlobalView, v: Seq<char>) -> Result<GlobalView, Seq<char>> {
    lift(mouse_actions_value(v), |a: Seq<MouseAction>| GlobalView { mouse_middle_click: a, ..g })
}

fn set_mouse_middle_click(g: &mut GlobalConfig, value: &Vec<char>) -> (r: Result<(), Vec<char>>)
    ensures
        applied_to(r, old(g)@, final(g)@, global_mouse_middle_click_spec(old(g)@, value@)),
{
    match parse_mouse_actions(value) {
        Ok(x) => {
            g.mouse_middle_click = x;
            Ok(())
        },
        Err(e) => Err(e),
    }
}

/// Effect of `mouse_right_click = v` on the `[global]` section.
pub open spec fn global_mouse_right_click_spec(g: GlobalView, v: Seq<char>) -> Result<GlobalView, Seq<char>> {
    lift(mouse_actions_value(v), |a: Seq<MouseAction>| GlobalView { mouse_right_click: a, ..g })
}

fn set_mouse_right_click(g: &mut GlobalConfig, value: &Vec<char>) -> (r: Result<(), Vec<char>>)
    ensures
        applied_to(r, old(g)@, final(g)@, global_mouse_right_click_spec(old(g)@, value@)),
{
    match parse_mouse_actions(value) {
        Ok(x) => {
            g.mouse_right_click = x;
            Ok(())
        },
        Err(e) => Err(e),
    }
}

/// Effect of `stack_duplicates = v` on the `[global]` section.
pub open spec fn global_stack_duplicates_spec(g: GlobalView, v: Seq<char>) -> Result<GlobalView, Seq<char>> {
    lift(bool_value(v), |b: bool| GlobalView { stack_duplicates: b, ..g })
}

fn set_stack_duplicates(g: &mut GlobalConfig, value: &Vec<char>) -> (r: Result<(), Vec<char>>)
    ensures
        applied_to(r, old(g)@, final(g)@, global_stack_duplicates_spec(old(g)@, value@)),
{
    match parse_bool(value) {
        Ok(x) => {
            g.stack_duplicates = x;
            Ok(())
        },
        Err(e) => Err(e),
    }
}

/// Effect of `hide_duplicate_count = v` on the `[global]` section.
pub open spec fn global_hide_duplicate_count_spec(g: GlobalView, v: Seq<char>) -> Result<GlobalView, Seq<char>> {
    lift(bool_value(v), |b: bool| GlobalView { hide_duplicate_count: b, ..g })
}

fn set_hide_duplicate_count(g: &mut GlobalConfig, value: &Vec<char>) -> (r: Result<(), Vec<char>>)
    ensures
        applied_to(r, old(g)@, final(g)@, global_hide_duplicate_count_spec(old(g)@, value@)),
{
    match parse_bool(value) {
        Ok(x) => {
            g.hide_duplicate_count = x;
            Ok(())
        },
        Err(e) => Err(e),
    }
}

/// Effect of `ignore_newline = v` on the `[global]` section.
pub open spec fn global_ignore_newline_spec(g: GlobalView, v: Seq<char>) -> Result<GlobalView, Seq<char>> {
    lift(bool_value(v), |b: bool| GlobalView { ignore_newline: b, ..g })
}

fn set_ignore_newline(g: &mut GlobalConfig, value: &Vec<char>) -> (r: Result<(), Vec<char>>)
    ensures
        applied_to(r, old(g)@, final(g)@, global_ignore_newline_spec(old(g)@, value@)),
{
    match parse_bool(value) {
        Ok(x) => {
            g.ignore_newline = x;
            Ok(())
        },
        Err(e) => Err(e),
    }
}

/// Effect of `scale = v` on the `[global]` section (recognised; GTK handles HiDPI, so the section is unchanged).
pub open spec fn global_scale_spec(g: GlobalView, v: Seq<char>) -> Result<GlobalView, Seq<char>> {
    Ok(g)
}

fn set_scale(g: &mut GlobalConfig, value: &Vec<char>) -> (r: Result<(), Vec<char>>)
    ensures
        applied_to(r, old(g)@, final(g)@, global_scale_spec(old(g)@, value@)),
{
    Ok(())
}

pub open spec fn is_behavior_key(k: Seq<char>) -> bool {
    k == "history_length"@ || k == "transparency"@ || k == "monitor"@ || k == "follow"@ || k == "notification_limit"@ || k == "sort"@ || k == "mouse_left_click"@ || k == "mouse_middle_click"@ || k == "mouse_right_click"@ || k == "stack_duplicates"@ || k == "hide_duplicate_count"@ || k == "ignore_newline"@ || k == "scale"@
}

/// Effect of a `[global]` key of the behavior group.
pub open spec fn group_behavior_spec(g: GlobalView, k: Seq<char>, v: Seq<char>) -> Result<GlobalView, Seq<char>> {
    if k == "history_length"@ {
        global_history_length_spec(g, v)
    } else if k == "transparency"@ {
        global_transparency_spec(g, v)
    } else if k == "monitor"@ {
        global_monitor_spec(g, v)
    } else if k == "follow"@ {
        global_follow_spec(g, v)
    } else if k == "notification_limit"@ {
        global_notification_limit_spec(g, v)
    } else if k == "sort"@ {
        global_sort_spec(g, v)
    } else if k == "mouse_left_click"@ {
        global_mouse_left_click_spec(g, v)
    } else if k == "mouse_middle_click"@ {
        global_mouse_middle_click_spec(g, v)
    } else if k == "mouse_right_click"@ {
        global_mouse_right_click_spec(g, v)
    } else if k == "stack_duplicates"@ {
        global_stack_duplicates_spec(g, v)
    } else if k == "hide_duplicate_count"@ {
        global_hide_duplicate_count_spec(g, v)
    } else if k == "ignore_newline"@ {
        global_ignore_newline_spec(g, v)
    } else {
        global_scale_spec(g, v)
    }
}

fn is_behavior_key_text(key: &Vec<char>) -> (r: bool)
    ensures
        r == is_behavior_key(key@),
{
    is_lit(key, "history_length") || is_lit(key, "transparency") || is_lit(key, "monitor") || is_lit(key, "follow") || is_lit(key, "notification_limit") || is_lit(key, "sort") || is_lit(key, "mouse_left_click") || is_lit(key, "mouse_middle_click") || is_lit(key, "mouse_right_click") || is_lit(key, "stack_duplicates") || is_lit(key, "hide_duplicate_count") || is_lit(key, "ignore_newline") || is_lit(key, "scale")
}

fn apply_global_behavior(g: &mut GlobalConfig, key: &Vec<char>, value: &Vec<char>) -> (r: Result<(), Vec<char>>)
    requires
        is_behavior_key(key@),
    ensures
        applied_to(r, old(g)@, final(g)@, group_behavior_spec(old(g)@, key@, value@)),
{
    if is_lit(key, "history_length") {
        set_history_length(g, value)
    } else if is_lit(key, "transparency") {
        set_transparency(g, value)
    } else if is_lit(key, "monitor") {
        set_monitor(g, value)
    } else if is_lit(key, "follow") {
        set_follow(g, value)
    } else if is_lit(key, "notification_limit") {
        set_notification_limit(g, value)
    } else if is_lit(key, "sort") {
        set_sort(g, value)
    } else if is_lit(key, "mouse_left_click") {
        set_mouse_left_click(g, value)
    } else if is_lit(key, "mouse_middle_click") {
        set_mouse_middle_click(g, value)
    } else if is_lit(key, "mouse_right_click") {
        set_mouse_right_click(g, value)
    } else if is_lit(key, "stack_duplicates") {
        set_stack_duplicates(g, value)
    } else if is_lit(key, "hide_duplicate_count") {
        set_hide_duplicate_count(g, value)
    } else if is_lit(key, "ignore_newline") {
        set_ignore_newline(g, value)
    } else {
        set_scale(g, value)
    }
}

/// Effect of `key = value` in the `[global]` section: the updated section,
/// or the warning for an unknown key or a malformed value.
pub open spec fn global_spec(g: GlobalView, k: Seq<char>, v: Seq<char>) -> Result<GlobalView, Seq<char>> {
    if is_layout_key(k) {
        group_layout_spec(g, k, v)
    } else if is_text_key(k) {
        group_text_spec(g, k, v)
    } else if is_icons_key(k) {
        group_icons_spec(g, k, v)
    } else if is_behavior_key(k) {
        group_behavior_spec(g, k, v)
    } else {
        Err(quoted_msg("unknown key "@, k))
    }
}

pub fn apply_global(g: &mut GlobalConfig, key: &Vec<char>, value: &Vec<char>) -> (r: Result<(), Vec<char>>)
    ensures
        applied_to(r, old(g)@, final(g)@, global_spec(old(g)@, key@, value@)),
{
    if is_layout_key_text(key) {
        apply_global_layout(g, key, value)
    } else if is_text_key_text(key) {
        apply_global_text(g, key, value)
    } else if is_icons_key_text(key) {
        apply_global_icons(g, key, value)
    } else if is_behavior_key_text(key) {
        apply_global_behavior(g, key, value)
    } else {
        Err(crate::values::unknown_key_msg(key))
    }
}

/// Applies a color parse result to an urgency section.
pub open spec fn urgency_color(
    r: Result<crate::config::Color, Seq<char>>,
    f: spec_fn(crate::config::Color) -> UrgencyConfig,
) -> Result<UrgencyConfig, Seq<char>> {
    match r {
        Ok(c) => Ok(f(c)),
        Err(e) => Err(e),
    }
}

/// Effect of `key = value` in an urgency section.
pub open spec fn urgency_spec(u: UrgencyConfig, k: Seq<char>, v: Seq<char>) -> Result<UrgencyConfig, Seq<char>> {
    if k == "timeout"@ {
        lift(
            int_value(v),
            |n: i32|
                UrgencyConfig {
                    timeout: if n < 0 {
                        0
                    } else {
                        n
                    },
                    ..u
                },
        )
    } else if k == "background"@ {
        urgency_color(color_value(v), |c| UrgencyConfig { background: c, ..u })
    } else if k == "foreground"@ {
        urgency_color(color_value(v), |c| UrgencyConfig { foreground: c, ..u })
    } else if k == "frame_color"@ {
        urgency_color(color_value(v), |c| UrgencyConfig { frame_color: c, ..u })
    } else if k == "highlight"@ {
        urgency_color(color_value(v), |c| UrgencyConfig { highlight: c, ..u })
    } else if k == "icon"@ {
        // recognised, not implemented: the section is unchanged
        Ok(u)
    } else {
        Err(quoted_msg("unknown key "@, k))
    }
}

pub fn apply_urgency(u: &mut UrgencyConfig, key: &Vec<char>, value: &Vec<char>) -> (r: Result<(), Vec<char>>)
    ensures
        applied_to(r, *old(u), *final(u), urgency_spec(*old(u), key@, value@)),
{
    if is_lit(key, "timeout") {
        match parse_int(value) {
            Ok(n) => {
                u.timeout = if n < 0 {
                    0
                } else {
                    n
                };
                Ok(())
            },
            Err(e) => Err(e),
        }
    } else if is_lit(key, "background") || is_lit(key, "foreground") || is_lit(key, "frame_color")
        || is_lit(key, "highlight") {
        match parse_color(value) {
            Err(e) => Err(e),
            Ok(c) => {
                if is_lit(key, "background") {
                    u.background = c;
                } else if is_lit(key, "foreground") {
                    u.foreground = c;
                } else if is_lit(key, "frame_color") {
                    u.frame_color = c;
                } else {
                    u.highlight = c;
                }
                Ok(())
            },
        }
    } else if is_lit(key, "icon") {
        Ok(())
    } else {
        Err(crate::values::unknown_key_msg(key))
    }
}

/// Applies `key = value` to the urgency section at `i`.
pub open spec fn urgency_at(cfg: ConfigView, i: int, k: Seq<char>, v: Seq<char>) -> Result<ConfigView, Seq<char>> {
    match urgency_spec(cfg.urgency[i], k, v) {
        Err(e) => Err(e),
        Ok(u) => Ok(ConfigView { urgency: cfg.urgency.update(i, u), ..cfg }),
    }
}

/// Sections dunst knows that this daemon does not implement.
pub open spec fn is_unimplemented_section(s: Seq<char>) -> bool {
    s == "shortcuts"@ || s == "experimental"@ || s == "frame"@ || s == "rules"@
}

/// Effect of `key = value` in section `section` (already lower-cased):
/// the updated configuration, or the warning.
pub open spec fn apply_spec(cfg: ConfigView, section: Seq<char>, k: Seq<char>, v: Seq<char>) -> Result<ConfigView, Seq<char>> {
    if section.len() == 0 {
        Err("key "@ + crate::text::str_debug(k) + " outside any section"@)
    } else if section == "global"@ {
        match global_spec(cfg.global, k, v) {
            Err(e) => Err(e),
            Ok(g) => Ok(ConfigView { global: g, ..cfg }),
        }
    } else if section == "urgency_low"@ {
        urgency_at(cfg, 0, k, v)
    } else if section == "urgency_normal"@ {
        urgency_at(cfg, 1, k, v)
    } else if section == "urgency_critical"@ {
        urgency_at(cfg, 2, k, v)
    } else if is_unimplemented_section(section) {
        Err("section ["@ + section + "] not implemented"@)
    } else {
        Err("unknown section ["@ + section + "]"@)
    }
}

/// Keys that are accepted but have no effect in this daemon, by section:
/// what to call them in the notice that says so.
pub open spec fn unimplemented_key(section: Seq<char>, k: Seq<char>) -> Option<Seq<char>> {
    if section == "global"@ && k == "scale"@ {
        Some("scale (GTK handles HiDPI)"@)
    } else if (section == "urgency_low"@ || section == "urgency_normal"@ || section
        == "urgency_critical"@) && k == "icon"@ {
        Some("urgency icon override"@)
    } else {
        None
    }
}

/// The notice for a line `key = value` in `section` that is accepted and
/// has no effect, if it is one.
pub open spec fn unimplemented_notice_spec(section: Seq<char>, k: Seq<char>, v: Seq<char>) -> Option<
    Seq<char>,
> {
    match unimplemented_key(section, k) {
        Some(what) => Some(
            "config key "@ + what + " ("@ + crate::text::str_debug(v)
                + ") parsed but not implemented yet"@,
        ),
        None => None,
    }
}

/// The notice for a line `key = value` in `section` (lower-cased) that is
/// accepted but has no effect, if it is one (see
/// [`unimplemented_notice_spec`]).
pub fn unimplemented_notice(section: &Vec<char>, key: &Vec<char>, value: &Vec<char>) -> (r: Option<
    Vec<char>,
>)
    ensures
        match unimplemented_notice_spec(section@, key@, value@) {
            Some(n) => r matches Some(m) && m@ == n,
            None => r is None,
        },
{
    let what = if is_lit(section, "global") && is_lit(key, "scale") {
        "scale (GTK handles HiDPI)"
    } else if (is_lit(section, "urgency_low") || is_lit(section, "urgency_normal") || is_lit(
        section,
        "urgency_critical",
    )) && is_lit(key, "icon") {
        "urgency icon override"
    } else {
        return None;
    };
    let mut m = chars_of("config key ");
    push_lit(&mut m, what);
    push_lit(&mut m, " (");
    let q = crate::text::debug_quoted(value);
    push_chars(&mut m, &q);
    push_lit(&mut m, ") parsed but not implemented yet");
    Some(m)
}

fn apply_to_urgency(cfg: &mut Config, i: usize, key: &Vec<char>, value: &Vec<char>) -> (r: Result<(), Vec<char>>)
    requires
        i < 3,
    ensures
        applied_to(r, old(cfg)@, final(cfg)@, urgency_at(old(cfg)@, i as int, key@, value@)),
{
    let mut u = cfg.urgency[i];
    let r = apply_urgency(&mut u, key, value);
    match r {
        Ok(()) => {
            let a = cfg.urgency[0];
            let b = cfg.urgency[1];
            let c = cfg.urgency[2];
            cfg.urgency = if i == 0 {
                [u, b, c]
            } else if i == 1 {
                [a, u, c]
            } else {
                [a, b, u]
            };
            assert(cfg@.urgency =~= old(cfg)@.urgency.update(i as int, u));
        },
        _ => {},
    }
    r
}

/// Applies `key = value` in `section` to the configuration.
pub fn apply(cfg: &mut Config, section: &Vec<char>, key: &Vec<char>, value: &Vec<char>) -> (r: Result<(), Vec<char>>)
    ensures
        applied_to(r, old(cfg)@, final(cfg)@, apply_spec(old(cfg)@, section@, key@, value@)),
{
    if section.len() == 0 {
        let mut m = chars_of("key ");
        let q = crate::text::debug_quoted(key);
        push_chars(&mut m, &q);
        push_lit(&mut m, " outside any section");
        Err(m)
    } else if is_lit(section, "global") {
        apply_global(&mut cfg.global, key, value)
    } else if is_lit(section, "urgency_low") {
        apply_to_urgency(cfg, 0, key, value)
    } else if is_lit(section, "urgency_normal") {
        apply_to_urgency(cfg, 1, key, value)
    } else if is_lit(section, "urgency_critical") {
        apply_to_urgency(cfg, 2, key, value)
    } else if is_lit(section, "shortcuts") || is_lit(section, "experimental") || is_lit(
        section,
        "frame",
    ) || is_lit(section, "rules") {
        let mut m = chars_of("section [");
        push_chars(&mut m, section);
        push_lit(&mut m, "] not implemented");
        Err(m)
    } else {
        let mut m = chars_of("unknown section [");
        push_chars(&mut m, section);
        push_lit(&mut m, "]");
        Err(m)
    }
}

} // verus!
