//! Parsers for the values of dunstrc settings: integers, booleans, keywords,
//! sizes, offsets, legacy geometries, colors and mouse-action lists.
//!
//! Each parser has a specification `*_value` over the text; a rejected value
//! yields the warning text that names it.

use vstd::prelude::*;
use vstd::utf8::encode_utf8;
use vstd::utf8::{is_ascii_chars, is_ascii_chars_encode_utf8};
use crate::text::{
    is_white_space, trim_end, trim_start, chars_of, debug_quoted, float_literal, is_float_literal, is_lit,
    lowercase, parse_i32, parse_i32_spec, push_chars, replace_char,
    replace_char_spec, slice_chars, split_chars, split_once, split_once_spec, split_spec,
    str_debug, str_lowercase, string_of, trim, trim_chars, views,
};
use crate::config::{
    color_hex_text, hex_digit_char, Alignment, Color, Ellipsize, Follow, IconPosition, Markup, MouseAction, Origin,
    SizeSpec, SizeSpecView, VerticalAlignment,
};

verus! {

/// `prefix` followed by the debug-quoted text `v`.
pub open spec fn quoted_msg(prefix: Seq<char>, v: Seq<char>) -> Seq<char> {
    prefix + str_debug(v)
}

pub(crate) fn msg(prefix: &str, v: &Vec<char>) -> (r: Vec<char>)
    ensures
        r@ == quoted_msg(prefix@, v@),
{
    let mut r = chars_of(prefix);
    let q = debug_quoted(v);
    push_chars(&mut r, &q);
    r
}

pub fn unknown_key_msg(key: &Vec<char>) -> (r: Vec<char>)
    ensures
        r@ == quoted_msg("unknown key "@, key@),
{
    msg("unknown key ", key)
}

// ------------------------------------------------------------------ integers
/// `parse_int`: a decimal `i32` after trimming.
pub open spec fn int_value(v: Seq<char>) -> Result<i32, Seq<char>> {
    match parse_i32_spec(trim(v)) {
        Some(n) => Ok(n),
        None => Err(quoted_msg("expected integer, got "@, v)),
    }
}

pub fn parse_int(v: &Vec<char>) -> (r: Result<i32, Vec<char>>)
    ensures
        match int_value(v@) {
            Ok(n) => r == Ok::<i32, Vec<char>>(n),
            Err(e) => r matches Err(m) && m@ == e,
        },
{
    let t = trim_chars(v);
    match parse_i32(&t) {
        Some(n) => Ok(n),
        None => Err(msg("expected integer, got ", v)),
    }
}

// ------------------------------------------------------------------ booleans
/// The lower-cased, trimmed form in which keywords are compared.
pub open spec fn keyword(v: Seq<char>) -> Seq<char> {
    str_lowercase(trim(v))
}

fn keyword_of(v: &Vec<char>) -> (r: Vec<char>)
    ensures
        r@ == keyword(v@),
{
    let t = trim_chars(v);
    lowercase(&t)
}

pub open spec fn bool_value(v: Seq<char>) -> Result<bool, Seq<char>> {
    let k = keyword(v);
    if k == "true"@ || k == "yes"@ || k == "on"@ || k == "1"@ {
        Ok(true)
    } else if k == "false"@ || k == "no"@ || k == "off"@ || k == "0"@ {
        Ok(false)
    } else {
        Err(quoted_msg("expected boolean, got "@, v))
    }
}

pub fn parse_bool(v: &Vec<char>) -> (r: Result<bool, Vec<char>>)
    ensures
        match bool_value(v@) {
            Ok(b) => r == Ok::<bool, Vec<char>>(b),
            Err(e) => r matches Err(m) && m@ == e,
        },
{
    let k = keyword_of(v);
    if is_lit(&k, "true") || is_lit(&k, "yes") || is_lit(&k, "on") || is_lit(&k, "1") {
        Ok(true)
    } else if is_lit(&k, "false") || is_lit(&k, "no") || is_lit(&k, "off") || is_lit(&k, "0") {
        Ok(false)
    } else {
        Err(msg("expected boolean, got ", v))
    }
}

// -------------------------------------------------------------- enumerations
pub open spec fn markup_value(v: Seq<char>) -> Result<Markup, Seq<char>> {
    let k = keyword(v);
    if k == "full"@ {
        Ok(Markup::Full)
    } else if k == "strip"@ {
        Ok(Markup::Strip)
    } else if k == "no"@ || k == "none"@ {
        Ok(Markup::No)
    } else {
        Err(quoted_msg("expected full/strip/no, got "@, v))
    }
}

pub fn parse_markup(v: &Vec<char>) -> (r: Result<Markup, Vec<char>>)
    ensures
        match markup_value(v@) {
            Ok(x) => r == Ok::<Markup, Vec<char>>(x),
            Err(e) => r matches Err(m) && m@ == e,
        },
{
    let k = keyword_of(v);
    if is_lit(&k, "full") {
        Ok(Markup::Full)
    } else if is_lit(&k, "strip") {
        Ok(Markup::Strip)
    } else if is_lit(&k, "no") || is_lit(&k, "none") {
        Ok(Markup::No)
    } else {
        Err(msg("expected full/strip/no, got ", v))
    }
}

pub open spec fn ellipsize_value(v: Seq<char>) -> Result<Ellipsize, Seq<char>> {
    let k = keyword(v);
    if k == "start"@ {
        Ok(Ellipsize::Start)
    } else if k == "middle"@ {
        Ok(Ellipsize::Middle)
    } else if k == "end"@ {
        Ok(Ellipsize::End)
    } else {
        Err(quoted_msg("expected start/middle/end, got "@, v))
    }
}

pub fn parse_ellipsize(v: &Vec<char>) -> (r: Result<Ellipsize, Vec<char>>)
    ensures
        match ellipsize_value(v@) {
            Ok(x) => r == Ok::<Ellipsize, Vec<char>>(x),
            Err(e) => r matches Err(m) && m@ == e,
        },
{
    let k = keyword_of(v);
    if is_lit(&k, "start") {
        Ok(Ellipsize::Start)
    } else if is_lit(&k, "middle") {
        Ok(Ellipsize::Middle)
    } else if is_lit(&k, "end") {
        Ok(Ellipsize::End)
    } else {
        Err(msg("expected start/middle/end, got ", v))
    }
}

pub open spec fn alignment_value(v: Seq<char>) -> Result<Alignment, Seq<char>> {
    let k = keyword(v);
    if k == "left"@ {
        Ok(Alignment::Left)
    } else if k == "center"@ {
        Ok(Alignment::Center)
    } else if k == "right"@ {
        Ok(Alignment::Right)
    } else {
        Err(quoted_msg("expected left/center/right, got "@, v))
    }
}

pub fn parse_alignment(v: &Vec<char>) -> (r: Result<Alignment, Vec<char>>)
    ensures
        match alignment_value(v@) {
            Ok(x) => r == Ok::<Alignment, Vec<char>>(x),
            Err(e) => r matches Err(m) && m@ == e,
        },
{
    let k = keyword_of(v);
    if is_lit(&k, "left") {
        Ok(Alignment::Left)
    } else if is_lit(&k, "center") {
        Ok(Alignment::Center)
    } else if is_lit(&k, "right") {
        Ok(Alignment::Right)
    } else {
        Err(msg("expected left/center/right, got ", v))
    }
}

pub open spec fn vertical_alignment_value(v: Seq<char>) -> Result<VerticalAlignment, Seq<char>> {
    let k = keyword(v);
    if k == "top"@ {
        Ok(VerticalAlignment::Top)
    } else if k == "center"@ {
        Ok(VerticalAlignment::Center)
    } else if k == "bottom"@ {
        Ok(VerticalAlignment::Bottom)
    } else {
        Err(quoted_msg("expected top/center/bottom, got "@, v))
    }
}

pub fn parse_vertical_alignment(v: &Vec<char>) -> (r: Result<VerticalAlignment, Vec<char>>)
    ensures
        match vertical_alignment_value(v@) {
            Ok(x) => r == Ok::<VerticalAlignment, Vec<char>>(x),
            Err(e) => r matches Err(m) && m@ == e,
        },
{
    let k = keyword_of(v);
    if is_lit(&k, "top") {
        Ok(VerticalAlignment::Top)
    } else if is_lit(&k, "center") {
        Ok(VerticalAlignment::Center)
    } else if is_lit(&k, "bottom") {
        Ok(VerticalAlignment::Bottom)
    } else {
        Err(msg("expected top/center/bottom, got ", v))
    }
}

pub open spec fn icon_position_value(v: Seq<char>) -> Result<IconPosition, Seq<char>> {
    let k = keyword(v);
    if k == "left"@ {
        Ok(IconPosition::Left)
    } else if k == "right"@ {
        Ok(IconPosition::Right)
    } else if k == "top"@ {
        Ok(IconPosition::Top)
    } else if k == "off"@ {
        Ok(IconPosition::Off)
    } else {
        Err(quoted_msg("expected left/right/top/off, got "@, v))
    }
}

pub fn parse_icon_position(v: &Vec<char>) -> (r: Result<IconPosition, Vec<char>>)
    ensures
        match icon_position_value(v@) {
            Ok(x) => r == Ok::<IconPosition, Vec<char>>(x),
            Err(e) => r matches Err(m) && m@ == e,
        },
{
    let k = keyword_of(v);
    if is_lit(&k, "left") {
        Ok(IconPosition::Left)
    } else if is_lit(&k, "right") {
        Ok(IconPosition::Right)
    } else if is_lit(&k, "top") {
        Ok(IconPosition::Top)
    } else if is_lit(&k, "off") {
        Ok(IconPosition::Off)
    } else {
        Err(msg("expected left/right/top/off, got ", v))
    }
}

pub open spec fn follow_value(v: Seq<char>) -> Result<Follow, Seq<char>> {
    let k = keyword(v);
    if k == "none"@ {
        Ok(Follow::Off)
    } else if k == "mouse"@ {
        Ok(Follow::Mouse)
    } else if k == "keyboard"@ || k == "focus"@ {
        Ok(Follow::Keyboard)
    } else {
        Err(quoted_msg("expected none/mouse/keyboard, got "@, v))
    }
}

pub fn parse_follow(v: &Vec<char>) -> (r: Result<Follow, Vec<char>>)
    ensures
        match follow_value(v@) {
            Ok(x) => r == Ok::<Follow, Vec<char>>(x),
            Err(e) => r matches Err(m) && m@ == e,
        },
{
    let k = keyword_of(v);
    if is_lit(&k, "none") {
        Ok(Follow::Off)
    } else if is_lit(&k, "mouse") {
        Ok(Follow::Mouse)
    } else if is_lit(&k, "keyboard") || is_lit(&k, "focus") {
        Ok(Follow::Keyboard)
    } else {
        Err(msg("expected none/mouse/keyboard, got ", v))
    }
}

/// The origin named by `v`; `_` and `-` are interchangeable.
pub open spec fn origin_value(v: Seq<char>) -> Result<Origin, Seq<char>> {
    let k = replace_char_spec(keyword(v), '_', '-');
    if k == "top-left"@ {
        Ok(Origin::TopLeft)
    } else if k == "top-center"@ || k == "top"@ {
        Ok(Origin::TopCenter)
    } else if k == "top-right"@ {
        Ok(Origin::TopRight)
    } else if k == "left"@ {
        Ok(Origin::Left)
    } else if k == "center"@ {
        Ok(Origin::Center)
    } else if k == "right"@ {
        Ok(Origin::Right)
    } else if k == "bottom-left"@ {
        Ok(Origin::BottomLeft)
    } else if k == "bottom-center"@ || k == "bottom"@ {
        Ok(Origin::BottomCenter)
    } else if k == "bottom-right"@ {
        Ok(Origin::BottomRight)
    } else {
        Err(quoted_msg("unknown origin "@, v))
    }
}

/// A boolean value is true for `true`, `yes`, `on` and `1` and false for
/// `false`, `no`, `off` and `0`, whatever the case and the surrounding
/// white space.
pub proof fn law_bool_words(v: Seq<char>)
    ensures
        keyword(v) == "true"@ ==> bool_value(v) == Ok::<bool, Seq<char>>(true),
        keyword(v) == "yes"@ ==> bool_value(v) == Ok::<bool, Seq<char>>(true),
        keyword(v) == "on"@ ==> bool_value(v) == Ok::<bool, Seq<char>>(true),
        keyword(v) == "1"@ ==> bool_value(v) == Ok::<bool, Seq<char>>(true),
        keyword(v) == "false"@ ==> bool_value(v) == Ok::<bool, Seq<char>>(false),
        keyword(v) == "no"@ ==> bool_value(v) == Ok::<bool, Seq<char>>(false),
        keyword(v) == "off"@ ==> bool_value(v) == Ok::<bool, Seq<char>>(false),
        keyword(v) == "0"@ ==> bool_value(v) == Ok::<bool, Seq<char>>(false),
{
    reveal_strlit("true");
    reveal_strlit("yes");
    reveal_strlit("on");
    reveal_strlit("1");
    reveal_strlit("false");
    reveal_strlit("no");
    reveal_strlit("off");
    reveal_strlit("0");
    assert("yes"@[0] != "off"@[0]);
    assert("on"@[0] != "no"@[0]);
    assert("1"@[0] != "0"@[0]);
    assert("true"@.len() == 4);
    assert("yes"@.len() == 3);
    assert("on"@.len() == 2);
    assert("1"@.len() == 1);
    assert("false"@.len() == 5);
    assert("no"@.len() == 2);
    assert("off"@.len() == 3);
    assert("0"@.len() == 1);
}

/// `full`, `strip` and `no` (or `none`) select the markup mode of that name.
pub proof fn law_markup_words(v: Seq<char>)
    ensures
        keyword(v) == "full"@ ==> markup_value(v) == Ok::<Markup, Seq<char>>(Markup::Full),
        keyword(v) == "strip"@ ==> markup_value(v) == Ok::<Markup, Seq<char>>(Markup::Strip),
        keyword(v) == "no"@ ==> markup_value(v) == Ok::<Markup, Seq<char>>(Markup::No),
        keyword(v) == "none"@ ==> markup_value(v) == Ok::<Markup, Seq<char>>(Markup::No),
{
    reveal_strlit("full");
    reveal_strlit("strip");
    reveal_strlit("no");
    reveal_strlit("none");
    assert("full"@[0] != "none"@[0]);
    assert("full"@.len() == 4);
    assert("strip"@.len() == 5);
    assert("no"@.len() == 2);
    assert("none"@.len() == 4);
}

/// `start`, `middle` and `end` select where an overlong line is cut.
pub proof fn law_ellipsize_words(v: Seq<char>)
    ensures
        keyword(v) == "start"@ ==> ellipsize_value(v) == Ok::<Ellipsize, Seq<char>>(Ellipsize::Start),
        keyword(v) == "middle"@ ==> ellipsize_value(v) == Ok::<Ellipsize, Seq<char>>(Ellipsize::Middle),
        keyword(v) == "end"@ ==> ellipsize_value(v) == Ok::<Ellipsize, Seq<char>>(Ellipsize::End),
{
    reveal_strlit("start");
    reveal_strlit("middle");
    reveal_strlit("end");
    assert("start"@.len() == 5);
    assert("middle"@.len() == 6);
    assert("end"@.len() == 3);
}

/// `left`, `center` and `right` select the text alignment of that name.
pub proof fn law_alignment_words(v: Seq<char>)
    ensures
        keyword(v) == "left"@ ==> alignment_value(v) == Ok::<Alignment, Seq<char>>(Alignment::Left),
        keyword(v) == "center"@ ==> alignment_value(v) == Ok::<Alignment, Seq<char>>(Alignment::Center),
        keyword(v) == "right"@ ==> alignment_value(v) == Ok::<Alignment, Seq<char>>(Alignment::Right),
{
    reveal_strlit("left");
    reveal_strlit("center");
    reveal_strlit("right");
    assert("left"@.len() == 4);
    assert("center"@.len() == 6);
    assert("right"@.len() == 5);
}

/// `top`, `center` and `bottom` select the vertical alignment of that name.
pub proof fn law_vertical_alignment_words(v: Seq<char>)
    ensures
        keyword(v) == "top"@ ==> vertical_alignment_value(v) == Ok::<VerticalAlignment, Seq<char>>(VerticalAlignment::Top),
        keyword(v) == "center"@ ==> vertical_alignment_value(v) == Ok::<VerticalAlignment, Seq<char>>(VerticalAlignment::Center),
        keyword(v) == "bottom"@ ==> vertical_alignment_value(v) == Ok::<VerticalAlignment, Seq<char>>(VerticalAlignment::Bottom),
{
    reveal_strlit("top");
    reveal_strlit("center");
    reveal_strlit("bottom");
    assert("center"@[0] != "bottom"@[0]);
    assert("top"@.len() == 3);
    assert("center"@.len() == 6);
    assert("bottom"@.len() == 6);
}

/// `left`, `right`, `top` and `off` select the icon position of that name.
pub proof fn law_icon_position_words(v: Seq<char>)
    ensures
        keyword(v) == "left"@ ==> icon_position_value(v) == Ok::<IconPosition, Seq<char>>(IconPosition::Left),
        keyword(v) == "right"@ ==> icon_position_value(v) == Ok::<IconPosition, Seq<char>>(IconPosition::Right),
        keyword(v) == "top"@ ==> icon_position_value(v) == Ok::<IconPosition, Seq<char>>(IconPosition::Top),
        keyword(v) == "off"@ ==> icon_position_value(v) == Ok::<IconPosition, Seq<char>>(IconPosition::Off),
{
    reveal_strlit("left");
    reveal_strlit("right");
    reveal_strlit("top");
    reveal_strlit("off");
    assert("top"@[0] != "off"@[0]);
    assert("left"@.len() == 4);
    assert("right"@.len() == 5);
    assert("top"@.len() == 3);
    assert("off"@.len() == 3);
}

/// `none` follows nothing, `mouse` the pointer, `keyboard` (or `focus`) the
/// keyboard focus.
pub proof fn law_follow_words(v: Seq<char>)
    ensures
        keyword(v) == "none"@ ==> follow_value(v) == Ok::<Follow, Seq<char>>(Follow::Off),
        keyword(v) == "mouse"@ ==> follow_value(v) == Ok::<Follow, Seq<char>>(Follow::Mouse),
        keyword(v) == "keyboard"@ ==> follow_value(v) == Ok::<Follow, Seq<char>>(Follow::Keyboard),
        keyword(v) == "focus"@ ==> follow_value(v) == Ok::<Follow, Seq<char>>(Follow::Keyboard),
{
    reveal_strlit("none");
    reveal_strlit("mouse");
    reveal_strlit("keyboard");
    reveal_strlit("focus");
    assert("mouse"@[0] != "focus"@[0]);
    assert("none"@.len() == 4);
    assert("mouse"@.len() == 5);
    assert("keyboard"@.len() == 8);
    assert("focus"@.len() == 5);
}

/// The dunstrc name of each origin.
pub open spec fn origin_keyword(o: Origin) -> Seq<char> {
    match o {
        Origin::TopLeft => "top-left"@,
        Origin::TopCenter => "top-center"@,
        Origin::TopRight => "top-right"@,
        Origin::Left => "left"@,
        Origin::Center => "center"@,
        Origin::Right => "right"@,
        Origin::BottomLeft => "bottom-left"@,
        Origin::BottomCenter => "bottom-center"@,
        Origin::BottomRight => "bottom-right"@,
    }
}

/// An origin value names the origin it parses to: whatever the case, the
/// surrounding white space and `_` in place of `-`, a value gives origin `o`
/// exactly when its keyword is the name of `o` (or `top`/`bottom` for the
/// top and bottom centers); any other keyword is rejected. So the nine
/// names map one to one onto the nine origins.
pub proof fn law_origin_names(v: Seq<char>, o: Origin)
    ensures
        origin_value(v) == Ok::<Origin, Seq<char>>(o) <==> ({
            let k = replace_char_spec(keyword(v), '_', '-');
            ||| k == origin_keyword(o)
            ||| o == Origin::TopCenter && k == "top"@
            ||| o == Origin::BottomCenter && k == "bottom"@
        }),
        (origin_value(v) is Err) <==> (forall|p: Origin|
            replace_char_spec(keyword(v), '_', '-') != #[trigger] origin_keyword(p))
            && replace_char_spec(keyword(v), '_', '-') != "top"@
            && replace_char_spec(keyword(v), '_', '-') != "bottom"@,
{
    reveal_strlit("top-left");
    reveal_strlit("top-center");
    reveal_strlit("top-right");
    reveal_strlit("left");
    reveal_strlit("center");
    reveal_strlit("right");
    reveal_strlit("bottom-left");
    reveal_strlit("bottom-center");
    reveal_strlit("bottom-right");
    reveal_strlit("top");
    reveal_strlit("bottom");
    assert("top-left"@.len() == 8);
    assert("top-center"@.len() == 10);
    assert("top-right"@.len() == 9);
    assert("left"@.len() == 4);
    assert("center"@.len() == 6);
    assert("right"@.len() == 5);
    assert("bottom-left"@.len() == 11);
    assert("bottom-center"@.len() == 13);
    assert("bottom-right"@.len() == 12);
    assert("top"@.len() == 3);
    assert("bottom"@.len() == 6);
    assert("center"@[0] != "bottom"@[0]);
    let k = replace_char_spec(keyword(v), '_', '-');
    match o {
        Origin::TopLeft => {},
        Origin::TopCenter => {},
        Origin::TopRight => {},
        Origin::Left => {},
        Origin::Center => {},
        Origin::Right => {},
        Origin::BottomLeft => {},
        Origin::BottomCenter => {},
        Origin::BottomRight => {},
    }
    if origin_value(v) is Err {
        assert forall|p: Origin| k != #[trigger] origin_keyword(p) by {
            match p {
                Origin::TopLeft => {},
                _ => {},
            }
        }
    } else {
        assert(origin_keyword(Origin::TopLeft) == "top-left"@);
        assert(origin_keyword(Origin::TopCenter) == "top-center"@);
        assert(origin_keyword(Origin::TopRight) == "top-right"@);
        assert(origin_keyword(Origin::Left) == "left"@);
        assert(origin_keyword(Origin::Center) == "center"@);
        assert(origin_keyword(Origin::Right) == "right"@);
        assert(origin_keyword(Origin::BottomLeft) == "bottom-left"@);
        assert(origin_keyword(Origin::BottomCenter) == "bottom-center"@);
        assert(origin_keyword(Origin::BottomRight) == "bottom-right"@);
    }
}

pub fn parse_origin(v: &Vec<char>) -> (r: Result<Origin, Vec<char>>)
    ensures
        match origin_value(v@) {
            Ok(x) => r == Ok::<Origin, Vec<char>>(x),
            Err(e) => r matches Err(m) && m@ == e,
        },
{
    let k0 = keyword_of(v);
    let k = replace_char(&k0, '_', '-');
    if is_lit(&k, "top-left") {
        Ok(Origin::TopLeft)
    } else if is_lit(&k, "top-center") || is_lit(&k, "top") {
        Ok(Origin::TopCenter)
    } else if is_lit(&k, "top-right") {
        Ok(Origin::TopRight)
    } else if is_lit(&k, "left") {
        Ok(Origin::Left)
    } else if is_lit(&k, "center") {
        Ok(Origin::Center)
    } else if is_lit(&k, "right") {
        Ok(Origin::Right)
    } else if is_lit(&k, "bottom-left") {
        Ok(Origin::BottomLeft)
    } else if is_lit(&k, "bottom-center") || is_lit(&k, "bottom") {
        Ok(Origin::BottomCenter)
    } else if is_lit(&k, "bottom-right") {
        Ok(Origin::BottomRight)
    } else {
        Err(msg("unknown origin ", v))
    }
}

/// The origin a legacy geometry's offset signs select.
pub open spec fn origin_from_signs_spec(x: i32, y: i32) -> Origin {
    if x < 0 && y < 0 {
        Origin::BottomRight
    } else if x < 0 {
        Origin::TopRight
    } else if y < 0 {
        Origin::BottomLeft
    } else {
        Origin::TopLeft
    }
}

/// The signs of a legacy geometry's offsets pick a corner: a negative x
/// measures from the right edge, a negative y from the bottom edge.
pub proof fn law_signs_pick_corner(x: i32, y: i32)
    ensures
        ({
            let o = origin_from_signs_spec(x, y);
            &&& (o == Origin::TopRight || o == Origin::BottomRight) <==> x < 0
            &&& (o == Origin::BottomLeft || o == Origin::BottomRight) <==> y < 0
            &&& o == Origin::TopLeft || o == Origin::TopRight || o == Origin::BottomLeft || o
                == Origin::BottomRight
        }),
{
}

pub fn origin_from_signs(x: i32, y: i32) -> (o: Origin)
    ensures
        o == origin_from_signs_spec(x, y),
{
    if x < 0 && y < 0 {
        Origin::BottomRight
    } else if x < 0 {
        Origin::TopRight
    } else if y < 0 {
        Origin::BottomLeft
    } else {
        Origin::TopLeft
    }
}

// ------------------------------------------------------------- mouse actions
pub open spec fn mouse_action_of(k: Seq<char>) -> Option<MouseAction> {
    if k == "none"@ {
        Some(MouseAction::Nothing)
    } else if k == "close_current"@ {
        Some(MouseAction::CloseCurrent)
    } else if k == "close_all"@ {
        Some(MouseAction::CloseAll)
    } else if k == "do_action"@ {
        Some(MouseAction::DoAction)
    } else if k == "context"@ {
        Some(MouseAction::Context)
    } else {
        None
    }
}

/// The actions of the first `n` comma-separated parts, or the warning for
/// the first part that names no action.
pub open spec fn mouse_actions_prefix(parts: Seq<Seq<char>>, n: nat) -> Result<
    Seq<MouseAction>,
    Seq<char>,
>
    decreases n,
{
    if n == 0 {
        Ok(Seq::empty())
    } else {
        match mouse_actions_prefix(parts, (n - 1) as nat) {
            Err(e) => Err(e),
            Ok(acts) => {
                let k = keyword(parts[n - 1]);
                match mouse_action_of(k) {
                    Some(a) => Ok(acts.push(a)),
                    None => Err(quoted_msg("unknown mouse action "@, k)),
                }
            },
        }
    }
}

/// `"close_current"`, `"do_action, close_current"`, `"none"`, ...
pub open spec fn mouse_actions_value(v: Seq<char>) -> Result<Seq<MouseAction>, Seq<char>> {
    let parts = split_spec(v, ',');
    mouse_actions_prefix(parts, parts.len())
}

proof fn lemma_mouse_actions_err_sticks(parts: Seq<Seq<char>>, n: nat, m: nat)
    requires
        n <= m,
        mouse_actions_prefix(parts, n) is Err,
    ensures
        mouse_actions_prefix(parts, m) == mouse_actions_prefix(parts, n),
    decreases m - n,
{
    if m > n {
        lemma_mouse_actions_err_sticks(parts, n, (m - 1) as nat);
    }
}

/// `none`, `close_current`, `close_all`, `do_action` and `context` name the
/// mouse action of that name.
pub proof fn law_mouse_action_words()
    ensures
        mouse_action_of("none"@) == Some(MouseAction::Nothing),
        mouse_action_of("close_current"@) == Some(MouseAction::CloseCurrent),
        mouse_action_of("close_all"@) == Some(MouseAction::CloseAll),
        mouse_action_of("do_action"@) == Some(MouseAction::DoAction),
        mouse_action_of("context"@) == Some(MouseAction::Context),
{
    reveal_strlit("none");
    reveal_strlit("close_current");
    reveal_strlit("close_all");
    reveal_strlit("do_action");
    reveal_strlit("context");
    assert("none"@.len() == 4);
    assert("close_current"@.len() == 13);
    assert("close_all"@.len() == 9);
    assert("do_action"@.len() == 9);
    assert("context"@.len() == 7);
    assert("close_all"@[0] != "do_action"@[0]);
}

/// A mouse-action list gives one action per comma-separated part, in the
/// order written, each the action its part names; it is rejected exactly
/// when some part names no action.
pub proof fn law_mouse_actions_one_per_part(v: Seq<char>)
    ensures
        ({
            let parts = split_spec(v, ',');
            &&& mouse_actions_value(v) is Ok <==> (forall|i: int|
                0 <= i < parts.len() ==> (#[trigger] mouse_action_of(keyword(parts[i]))) is Some)
            &&& mouse_actions_value(v) is Ok ==> ({
                let acts = mouse_actions_value(v)->Ok_0;
                &&& acts.len() == parts.len()
                &&& forall|i: int|
                    0 <= i < parts.len() ==> mouse_action_of(keyword(parts[i])) == Some(
                        #[trigger] acts[i],
                    )
            })
        }),
{
    let parts = split_spec(v, ',');
    lemma_mouse_actions_prefix(parts, parts.len());
}

proof fn lemma_mouse_actions_prefix(parts: Seq<Seq<char>>, n: nat)
    requires
        n <= parts.len(),
    ensures
        mouse_actions_prefix(parts, n) is Ok <==> (forall|i: int|
            0 <= i < n ==> (#[trigger] mouse_action_of(keyword(parts[i]))) is Some),
        mouse_actions_prefix(parts, n) is Ok ==> ({
            let acts = mouse_actions_prefix(parts, n)->Ok_0;
            &&& acts.len() == n
            &&& forall|i: int|
                0 <= i < n ==> mouse_action_of(keyword(parts[i])) == Some(#[trigger] acts[i])
        }),
    decreases n,
{
    if n > 0 {
        lemma_mouse_actions_prefix(parts, (n - 1) as nat);
        let k = keyword(parts[n - 1]);
        if mouse_actions_prefix(parts, (n - 1) as nat) is Err {
            let j = choose|i: int|
                0 <= i < n - 1 && !((#[trigger] mouse_action_of(keyword(parts[i]))) is Some);
            assert(0 <= j < n);
        } else if mouse_action_of(k) is None {
            assert(!(mouse_action_of(keyword(parts[n - 1])) is Some));
        } else {
            let acts = mouse_actions_prefix(parts, n)->Ok_0;
            let prev = mouse_actions_prefix(parts, (n - 1) as nat)->Ok_0;
            assert forall|i: int| 0 <= i < n implies mouse_action_of(keyword(parts[i])) == Some(
                #[trigger] acts[i],
            ) by {
                if i < n - 1 {
                    assert(acts[i] == prev[i]);
                }
            }
        }
    }
}

fn mouse_action_lookup(k: &Vec<char>) -> (r: Option<MouseAction>)
    ensures
        r == mouse_action_of(k@),
{
    if is_lit(k, "none") {
        Some(MouseAction::Nothing)
    } else if is_lit(k, "close_current") {
        Some(MouseAction::CloseCurrent)
    } else if is_lit(k, "close_all") {
        Some(MouseAction::CloseAll)
    } else if is_lit(k, "do_action") {
        Some(MouseAction::DoAction)
    } else if is_lit(k, "context") {
        Some(MouseAction::Context)
    } else {
        None
    }
}

pub fn parse_mouse_actions(v: &Vec<char>) -> (r: Result<Vec<MouseAction>, Vec<char>>)
    ensures
        match mouse_actions_value(v@) {
            Ok(x) => r matches Ok(acts) && acts@ == x,
            Err(e) => r matches Err(m) && m@ == e,
        },
{
    let parts = split_chars(v, ',');
    let ghost ps = views(parts@);
    let mut out: Vec<MouseAction> = Vec::new();
    let mut i: usize = 0;
    while i < parts.len()
        invariant
            i <= parts.len(),
            ps == views(parts@),
            ps == split_spec(v@, ','),
            ps.len() == parts.len(),
            mouse_actions_prefix(ps, i as nat) == Ok::<Seq<MouseAction>, Seq<char>>(out@),
        decreases parts.len() - i,
    {
        assert(ps[i as int] == parts@[i as int]@);
        let k = keyword_of(&parts[i]);
        match mouse_action_lookup(&k) {
            Some(a) => {
                out.push(a);
                assert(((i + 1) as nat - 1) as nat == i as nat);
            },
            None => {
                proof {
                    assert(((i + 1) as nat - 1) as nat == i as nat);
                    assert(mouse_actions_prefix(ps, (i + 1) as nat) == Err::<Seq<MouseAction>, Seq<char>>(
                        quoted_msg("unknown mouse action "@, k@),
                    ));
                    lemma_mouse_actions_err_sticks(ps, (i + 1) as nat, ps.len());
                }
                return Err(msg("unknown mouse action ", &k));
            },
        }
        i = i + 1;
    }
    Ok(out)
}

// -------------------------------------------------------------------- quotes
/// Strips one layer of matching surrounding quotes (dunst requires quotes
/// for values containing `#`).
pub open spec fn unquote_spec(v: Seq<char>) -> Seq<char> {
    let t = trim(v);
    if t.len() >= 2 && ((t[0] == '"' && t.last() == '"') || (t[0] == '\'' && t.last() == '\'')) {
        t.subrange(1, t.len() - 1)
    } else {
        t
    }
}

pub fn unquote(v: &Vec<char>) -> (r: Vec<char>)
    ensures
        r@ == unquote_spec(v@),
{
    let t = trim_chars(v);
    let n = t.len();
    if n >= 2 && ((t[0] == '"' && t[n - 1] == '"') || (t[0] == '\'' && t[n - 1] == '\'')) {
        slice_chars(&t, 1, n - 1)
    } else {
        t
    }
}

// --------------------------------------------------------------------- sizes
/// `"(a, b)"`: exactly two comma-separated integers between the brackets.
pub open spec fn pair_value(t: Seq<char>, err_prefix: Seq<char>) -> Result<(i32, i32), Seq<char>> {
    let parts = split_spec(t.subrange(1, t.len() - 1), ',');
    if parts.len() != 2 {
        Err(quoted_msg(err_prefix, t))
    } else {
        match int_value(parts[0]) {
            Err(e) => Err(e),
            Ok(a) => match int_value(parts[1]) {
                Err(e) => Err(e),
                Ok(b) => Ok((a, b)),
            },
        }
    }
}

pub open spec fn is_bracketed(t: Seq<char>) -> bool {
    t.len() > 0 && t[0] == '(' && t.last() == ')'
}

fn parse_pair(t: &Vec<char>, err_prefix: &str) -> (r: Result<(i32, i32), Vec<char>>)
    requires
        is_bracketed(t@),
    ensures
        match pair_value(t@, err_prefix@) {
            Ok(x) => r == Ok::<(i32, i32), Vec<char>>(x),
            Err(e) => r matches Err(m) && m@ == e,
        },
{
    let inner = slice_chars(t, 1, t.len() - 1);
    let parts = split_chars(&inner, ',');
    if parts.len() != 2 {
        return Err(msg(err_prefix, t));
    }
    assert(views(parts@)[0] == parts@[0]@);
    assert(views(parts@)[1] == parts@[1]@);
    let a = match parse_int(&parts[0]) {
        Ok(a) => a,
        Err(e) => {
            return Err(e);
        },
    };
    let b = match parse_int(&parts[1]) {
        Ok(b) => b,
        Err(e) => {
            return Err(e);
        },
    };
    Ok((a, b))
}

/// `"300"` | `"(0, 300)"` | `"62%"`.
pub open spec fn size_value(v: Seq<char>) -> Result<SizeSpecView, Seq<char>> {
    let t = trim(v);
    if t.len() > 0 && t.last() == '%' {
        let p = trim(t.drop_last());
        if float_literal(p) {
            Ok(SizeSpecView::Percent(p))
        } else {
            Err(quoted_msg("expected percentage, got "@, t))
        }
    } else if is_bracketed(t) {
        match pair_value(t, "expected (min, max), got "@) {
            Ok((a, b)) => Ok(SizeSpecView::Range(a, b)),
            Err(e) => Err(e),
        }
    } else {
        match int_value(t) {
            Ok(n) => Ok(SizeSpecView::Constant(n)),
            Err(e) => Err(e),
        }
    }
}

pub fn parse_size(v: &Vec<char>) -> (r: Result<SizeSpec, Vec<char>>)
    ensures
        match size_value(v@) {
            Ok(x) => r matches Ok(s) && s@ == x,
            Err(e) => r matches Err(m) && m@ == e,
        },
{
    let t = trim_chars(v);
    let n = t.len();
    if n > 0 && t[n - 1] == '%' {
        let p0 = slice_chars(&t, 0, n - 1);
        assert(p0@ =~= t@.drop_last());
        let p = trim_chars(&p0);
        if is_float_literal(&p) {
            Ok(SizeSpec::Percent(string_of(&p)))
        } else {
            Err(msg("expected percentage, got ", &t))
        }
    } else if n > 0 && t[0] == '(' && t[n - 1] == ')' {
        match parse_pair(&t, "expected (min, max), got ") {
            Ok((a, b)) => Ok(SizeSpec::Range(a, b)),
            Err(e) => Err(e),
        }
    } else {
        match parse_int(&t) {
            Ok(k) => Ok(SizeSpec::Constant(k)),
            Err(e) => Err(e),
        }
    }
}

/// `"(10, 100)"` (new format) or `"10x300"` (legacy).
pub open spec fn offset_value(v: Seq<char>) -> Result<(i32, i32), Seq<char>> {
    let t = trim(v);
    if is_bracketed(t) {
        pair_value(t, "expected (x, y), got "@)
    } else {
        match split_once_spec(t, 'x') {
            Some((a, b)) => match int_value(a) {
                Err(e) => Err(e),
                Ok(x) => match int_value(b) {
                    Err(e) => Err(e),
                    Ok(y) => Ok((x, y)),
                },
            },
            None => Err(quoted_msg("expected (x, y) or NxN, got "@, t)),
        }
    }
}

pub fn parse_offset(v: &Vec<char>) -> (r: Result<(i32, i32), Vec<char>>)
    ensures
        match offset_value(v@) {
            Ok(x) => r == Ok::<(i32, i32), Vec<char>>(x),
            Err(e) => r matches Err(m) && m@ == e,
        },
{
    let t = trim_chars(v);
    let n = t.len();
    if n > 0 && t[0] == '(' && t[n - 1] == ')' {
        return parse_pair(&t, "expected (x, y), got ");
    }
    match split_once(&t, 'x') {
        Some((a, b)) => {
            let x = match parse_int(&a) {
                Ok(x) => x,
                Err(e) => {
                    return Err(e);
                },
            };
            let y = match parse_int(&b) {
                Ok(y) => y,
                Err(e) => {
                    return Err(e);
                },
            };
            Ok((x, y))
        },
        None => Err(msg("expected (x, y) or NxN, got ", &t)),
    }
}

// ------------------------------------------------------------------ geometry
pub open spec fn is_sign_mark(c: char) -> bool {
    c == '+' || c == '-' || c == 'x'
}

/// Index of the first `+`, `-` or `x` at or after `i`, or the length.
pub open spec fn cut_from(s: Seq<char>, i: int) -> int
    decreases s.len() - i,
{
    if i >= s.len() {
        s.len() as int
    } else if is_sign_mark(s[i]) {
        i
    } else {
        cut_from(s, i + 1)
    }
}

proof fn lemma_cut_from(s: Seq<char>, i: int, k: int)
    requires
        1 <= i <= k <= s.len(),
        forall|j: int| i <= j < k ==> !is_sign_mark(#[trigger] s[j]),
    ensures
        k < s.len() && is_sign_mark(s[k]) ==> cut_from(s, i) == k,
        k == s.len() ==> cut_from(s, i) == k,
    decreases k - i,
{
    if i < k {
        lemma_cut_from(s, i + 1, k);
    }
}

/// Splits `"300-10+20"` into `(300, "-10+20")`: a number up to the next
/// sign or `x` (a sign in first position belongs to the number).
pub open spec fn split_signed_spec(s: Seq<char>) -> Result<(i32, Seq<char>), Seq<char>> {
    let t = trim(s);
    let e = cut_from(t, 1);
    match parse_i32_spec(t.subrange(0, e)) {
        Some(n) => Ok((n, t.subrange(e, t.len() as int))),
        None => Err(quoted_msg("expected number in "@, t)),
    }
}

proof fn lemma_cut_from_bound(s: Seq<char>, i: int)
    requires
        0 <= i,
    ensures
        i <= s.len() ==> i <= cut_from(s, i) <= s.len(),
        i > s.len() ==> cut_from(s, i) == s.len(),
    decreases s.len() - i,
{
    if i < s.len() && !is_sign_mark(s[i]) {
        lemma_cut_from_bound(s, i + 1);
    }
}

fn split_signed(s: &Vec<char>) -> (r: Result<(i32, Vec<char>), Vec<char>>)
    ensures
        match split_signed_spec(s@) {
            Ok((n, rest)) => r matches Ok((m, rr)) && m == n && rr@ == rest,
            Err(e) => r matches Err(m) && m@ == e,
        },
{
    let t = trim_chars(s);
    let n = t.len();
    let mut end: usize = n;
    if n > 1 {
        let mut i: usize = 1;
        while i < n && !(t[i] == '+' || t[i] == '-' || t[i] == 'x')
            invariant
                1 <= i <= n,
                n == t.len(),
                forall|j: int| 1 <= j < i ==> !is_sign_mark(#[trigger] t@[j]),
            decreases n - i,
        {
            i = i + 1;
        }
        proof {
            lemma_cut_from(t@, 1, i as int);
        }
        end = i;
    } else {
        proof {
            lemma_cut_from_bound(t@, 1);
        }
    }
    assert(end == cut_from(t@, 1));
    let num = slice_chars(&t, 0, end);
    match parse_i32(&num) {
        Some(v) => Ok((v, slice_chars(&t, end, n))),
        None => Err(msg("expected number in ", &t)),
    }
}

/// Legacy geometry `"WxH+X+Y"` (signs significant, e.g. `"0x0-10+10"`).
pub open spec fn geometry_value(v: Seq<char>) -> Result<(i32, i32, i32, i32), Seq<char>> {
    let t = trim(v);
    match split_signed_spec(t) {
        Err(e) => Err(e),
        Ok((w, rest)) => if !(rest.len() > 0 && rest[0] == 'x') {
            Err(quoted_msg("expected WxH+X+Y, got "@, t))
        } else {
            match split_signed_spec(rest.drop_first()) {
                Err(e) => Err(e),
                Ok((h, r2)) => match split_signed_spec(r2) {
                    Err(e) => Err(e),
                    Ok((x, r3)) => match split_signed_spec(r3) {
                        Err(e) => Err(e),
                        Ok((y, r4)) => if r4.len() > 0 {
                            Err(quoted_msg("trailing data in geometry "@, t))
                        } else {
                            Ok((w, h, x, y))
                        },
                    },
                },
            }
        },
    }
}

pub fn parse_geometry(v: &Vec<char>) -> (r: Result<(i32, i32, i32, i32), Vec<char>>)
    ensures
        match geometry_value(v@) {
            Ok(x) => r == Ok::<(i32, i32, i32, i32), Vec<char>>(x),
            Err(e) => r matches Err(m) && m@ == e,
        },
{
    let t = trim_chars(v);
    let (w, rest) = match split_signed(&t) {
        Ok(p) => p,
        Err(e) => {
            return Err(e);
        },
    };
    if !(rest.len() > 0 && rest[0] == 'x') {
        return Err(msg("expected WxH+X+Y, got ", &t));
    }
    let rest1 = slice_chars(&rest, 1, rest.len());
    assert(rest1@ =~= rest@.drop_first());
    let (h, r2) = match split_signed(&rest1) {
        Ok(p) => p,
        Err(e) => {
            return Err(e);
        },
    };
    let (x, r3) = match split_signed(&r2) {
        Ok(p) => p,
        Err(e) => {
            return Err(e);
        },
    };
    let (y, r4) = match split_signed(&r3) {
        Ok(p) => p,
        Err(e) => {
            return Err(e);
        },
    };
    if r4.len() > 0 {
        return Err(msg("trailing data in geometry ", &t));
    }
    Ok((w, h, x, y))
}

// -------------------------------------------------------------------- colors
/// Value of an ASCII hexadecimal digit byte.
pub open spec fn hex_val(b: u8) -> Option<u8> {
    if 48 <= b <= 57 {
        Some((b - 48) as u8)
    } else if 97 <= b <= 102 {
        Some((b - 87) as u8)
    } else if 65 <= b <= 70 {
        Some((b - 55) as u8)
    } else {
        None
    }
}

/// Every byte is an ASCII hexadecimal digit.
pub open spec fn all_hex(b: Seq<u8>) -> bool {
    forall|i: int| 0 <= i < b.len() ==> #[trigger] hex_val(b[i]) is Some
}

/// The component `w` hex digits wide (1 or 2) starting at byte `lo`; a
/// component written with one digit stands for that digit repeated.
pub open spec fn component(b: Seq<u8>, lo: int, w: int) -> u8 {
    if w == 1 {
        (hex_val(b[lo])->0 * 17) as u8
    } else {
        (hex_val(b[lo])->0 * 16 + hex_val(b[lo + 1])->0) as u8
    }
}

/// `#RGB`, `#RGBA`, `#RRGGBB` or `#RRGGBBAA` in hexadecimal digits, where
/// the length counts the UTF-8 bytes after `#`; the alpha defaults to 255.
pub open spec fn color_value(v: Seq<char>) -> Result<Color, Seq<char>> {
    let t = trim(v);
    if !(t.len() > 0 && t[0] == '#') {
        Err(quoted_msg("expected #RGB color, got "@, t))
    } else {
        let b = encode_utf8(t.drop_first());
        let len = b.len();
        if len != 3 && len != 4 && len != 6 && len != 8 {
            Err(quoted_msg("expected #RGB/#RGBA/#RRGGBB/#RRGGBBAA, got "@, t))
        } else if !all_hex(b) {
            Err(quoted_msg("invalid hex in color "@, t))
        } else {
            let w: int = if len == 3 || len == 4 {
                1
            } else {
                2
            };
            Ok(
                Color {
                    r: component(b, 0, w),
                    g: component(b, w, w),
                    b: component(b, 2 * w, w),
                    a: if len == 3 || len == 6 {
                        255
                    } else {
                        component(b, 3 * w, w)
                    },
                },
            )
        }
    }
}

fn hex_byte_value(b: u8) -> (r: Option<u8>)
    ensures
        r == hex_val(b),
{
    if 48 <= b && b <= 57 {
        Some(b - 48)
    } else if 97 <= b && b <= 102 {
        Some(b - 87)
    } else if 65 <= b && b <= 70 {
        Some(b - 55)
    } else {
        None
    }
}

fn hex_digit_value(b: u8) -> (r: u8)
    requires
        hex_val(b) is Some,
    ensures
        r == hex_val(b)->0,
        r < 16,
{
    match hex_byte_value(b) {
        Some(x) => x,
        None => 0,
    }
}

fn component_at(bytes: &[u8], lo: usize, w: usize) -> (r: u8)
    requires
        all_hex(bytes@),
        w == 1 || w == 2,
        lo + w <= bytes@.len(),
    ensures
        r == component(bytes@, lo as int, w as int),
{
    let x = hex_digit_value(bytes[lo]);
    if w == 1 {
        x * 17
    } else {
        let y = hex_digit_value(bytes[lo + 1]);
        x * 16 + y
    }
}

pub fn parse_color(v: &Vec<char>) -> (r: Result<Color, Vec<char>>)
    ensures
        match color_value(v@) {
            Ok(c) => r == Ok::<Color, Vec<char>>(c),
            Err(e) => r matches Err(m) && m@ == e,
        },
{
    let t = trim_chars(v);
    let n = t.len();
    if !(n > 0 && t[0] == '#') {
        return Err(msg("expected #RGB color, got ", &t));
    }
    let hex = slice_chars(&t, 1, n);
    assert(hex@ =~= t@.drop_first());
    let hs = string_of(&hex);
    let h: &str = hs.as_str();
    let bytes: &[u8] = h.as_bytes();
    let len = bytes.len();
    assert(bytes@ == encode_utf8(t@.drop_first()));
    if len != 3 && len != 4 && len != 6 && len != 8 {
        return Err(msg("expected #RGB/#RGBA/#RRGGBB/#RRGGBBAA, got ", &t));
    }
    let mut i: usize = 0;
    while i < len
        invariant
            len == bytes@.len(),
            bytes@ == encode_utf8(t@.drop_first()),
            t@ == trim(v@),
            t@.len() > 0 && t@[0] == '#',
            len == 3 || len == 4 || len == 6 || len == 8,
            i <= len,
            forall|j: int| 0 <= j < i ==> #[trigger] hex_val(bytes@[j]) is Some,
        decreases len - i,
    {
        if hex_byte_value(bytes[i]).is_none() {
            assert(!all_hex(bytes@));
            return Err(msg("invalid hex in color ", &t));
        }
        i = i + 1;
    }
    assert(all_hex(bytes@));
    let w: usize = if len == 3 || len == 4 {
        1
    } else {
        2
    };
    let r = component_at(bytes, 0, w);
    let g = component_at(bytes, w, w);
    let bl = component_at(bytes, 2 * w, w);
    let a = if len == 3 || len == 6 {
        255
    } else {
        component_at(bytes, 3 * w, w)
    };
    let c = Color { r, g, b: bl, a };
    Ok(c)
}

proof fn lemma_trim_keeps_ascii(s: Seq<char>)
    requires
        is_ascii_chars(s),
    ensures
        is_ascii_chars(trim(s)),
{
    lemma_trim_start_ascii(s);
    lemma_trim_end_ascii(trim_start(s));
}

proof fn lemma_trim_start_ascii(s: Seq<char>)
    requires
        is_ascii_chars(s),
    ensures
        is_ascii_chars(trim_start(s)),
    decreases s.len(),
{
    if s.len() > 0 && is_white_space(s[0]) {
        assert(is_ascii_chars(s.drop_first())) by {
            assert forall|i: int| 0 <= i < s.drop_first().len() implies '\0' <= #[trigger] s.drop_first()[i] <= '\u{7f}' by {
                assert(s.drop_first()[i] == s[i + 1]);
            }
        }
        lemma_trim_start_ascii(s.drop_first());
    }
}

proof fn lemma_trim_end_ascii(s: Seq<char>)
    requires
        is_ascii_chars(s),
    ensures
        is_ascii_chars(trim_end(s)),
    decreases s.len(),
{
    if s.len() > 0 && is_white_space(s.last()) {
        assert(is_ascii_chars(s.drop_last())) by {
            assert forall|i: int| 0 <= i < s.drop_last().len() implies '\0' <= #[trigger] s.drop_last()[i] <= '\u{7f}' by {
                assert(s.drop_last()[i] == s[i]);
            }
        }
        lemma_trim_end_ascii(s.drop_last());
    }
}

/// An ASCII hexadecimal digit.
pub open spec fn is_hex_char(c: char) -> bool {
    ('0' <= c <= '9') || ('a' <= c <= 'f') || ('A' <= c <= 'F')
}

/// On ASCII text a color is accepted exactly when the trimmed text is `#`
/// followed by 3, 4, 6 or 8 hexadecimal digits; anything else is a warning.
pub proof fn law_ascii_color_forms(v: Seq<char>)
    requires
        is_ascii_chars(v),
    ensures
        color_value(v) is Ok <==> ({
            let t = trim(v);
            &&& t.len() > 0 && t[0] == '#'
            &&& t.len() - 1 == 3 || t.len() - 1 == 4 || t.len() - 1 == 6 || t.len() - 1 == 8
            &&& forall|i: int| 1 <= i < t.len() ==> #[trigger] is_hex_char(t[i])
        }),
{
    lemma_trim_keeps_ascii(v);
    let t = trim(v);
    if t.len() > 0 && t[0] == '#' {
        let hex = t.drop_first();
        assert(is_ascii_chars(hex)) by {
            assert forall|i: int| 0 <= i < hex.len() implies '\0' <= #[trigger] hex[i] <= '\u{7f}' by {
                assert(hex[i] == t[i + 1]);
            }
        }
        is_ascii_chars_encode_utf8(hex);
        let b = encode_utf8(hex);
        assert forall|i: int| 0 <= i < hex.len() implies (#[trigger] hex_val(b[i]) is Some
            <==> is_hex_char(hex[i])) by {
            assert(hex[i] as u8 == b[i]);
        }
        if all_hex(b) {
            assert forall|i: int| 1 <= i < t.len() implies #[trigger] is_hex_char(t[i]) by {
                assert(t[i] == hex[i - 1]);
                assert(hex_val(b[i - 1]) is Some);
            }
        } else {
            let k = choose|k: int| 0 <= k < b.len() && !(#[trigger] hex_val(b[k]) is Some);
            assert(!is_hex_char(t[k + 1])) by {
                assert(t[k + 1] == hex[k]);
            }
        }
    }
}

proof fn lemma_hex_digit_roundtrip(d: int)
    requires
        0 <= d < 16,
    ensures
        hex_val(hex_digit_char(d) as u8) == Some(d as u8),
        '0' <= hex_digit_char(d) <= 'F',
        !is_white_space(hex_digit_char(d)),
{
}

/// The `#RRGGBBAA` text of a color parses back to the same color.
pub proof fn law_color_hex_roundtrip(c: Color)
    ensures
        color_value(color_hex_text(c)) == Ok::<Color, Seq<char>>(c),
{
    let t = color_hex_text(c);
    let digits = seq![
        (c.r / 16) as int, (c.r % 16) as int, (c.g / 16) as int, (c.g % 16) as int,
        (c.b / 16) as int, (c.b % 16) as int, (c.a / 16) as int, (c.a % 16) as int,
    ];
    assert forall|i: int| 0 <= i < 8 implies 0 <= #[trigger] digits[i] < 16 by {}
    assert(t.len() == 9);
    assert forall|i: int| 1 <= i < 9 implies #[trigger] t[i] == hex_digit_char(digits[i - 1]) by {}
    assert forall|i: int| 0 <= i < 8 implies hex_val(hex_digit_char(#[trigger] digits[i]) as u8)
        == Some(digits[i] as u8) && '0' <= hex_digit_char(digits[i]) <= 'F'
        && !is_white_space(hex_digit_char(digits[i])) by {
        lemma_hex_digit_roundtrip(digits[i]);
    }
    assert(t[0] == '#');
    assert(!is_white_space(t[8]));
    assert(trim_start(t) == t);
    assert(trim_end(t) == t);
    assert(trim(t) == t);
    let hex = t.drop_first();
    assert(is_ascii_chars(hex));
    is_ascii_chars_encode_utf8(hex);
    let b = encode_utf8(hex);
    assert(b.len() == 8);
    assert forall|i: int| 0 <= i < 8 implies #[trigger] b[i] == hex_digit_char(digits[i]) as u8 by {
        assert(b[i] == hex[i] as u8);
        assert(hex[i] == t[i + 1]);
    }
    assert(all_hex(b));
    assert(c.r == (c.r / 16) * 16 + c.r % 16);
    assert(c.g == (c.g / 16) * 16 + c.g % 16);
    assert(c.b == (c.b / 16) * 16 + c.b % 16);
    assert(c.a == (c.a / 16) * 16 + c.a % 16);
}

} // verus!
