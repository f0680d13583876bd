//! Icon decisions: path or theme name, the displayed size, and the
//! placeholder shown for a missing icon.

use vstd::prelude::*;
use crate::config::IconPosition;
use crate::text::{char_uppercase, chars_of, contains_chars, contains_text, string_of, uppercase_char};

verus! {

/// Is `icon` a file path rather than a theme icon name? Paths are
/// recognized by a leading `/`, `~` or by containing `/`.
pub open spec fn is_path_spec(icon: Seq<char>) -> bool {
    (icon.len() > 0 && (icon[0] == '/' || icon[0] == '~')) || contains_text(icon, seq!['/'])
}

pub fn is_path(icon: &str) -> (b: bool)
    ensures
        b == is_path_spec(icon@),
{
    let v = chars_of(icon);
    if v.len() > 0 && (v[0] == '/' || v[0] == '~') {
        return true;
    }
    let mut slash: Vec<char> = Vec::new();
    slash.push('/');
    assert(slash@ =~= seq!['/']);
    contains_chars(&v, &slash)
}

/// The placeholder letter for a missing icon: the app name's first
/// character upper-cased, `?` for an empty name.
pub open spec fn first_letter_spec(app_name: Seq<char>) -> Seq<char> {
    if app_name.len() == 0 {
        seq!['?']
    } else {
        char_uppercase(app_name[0])
    }
}

pub fn first_letter(app_name: &str) -> (s: String)
    ensures
        s@ == first_letter_spec(app_name@),
{
    let v = chars_of(app_name);
    if v.len() == 0 {
        let mut q: Vec<char> = Vec::new();
        q.push('?');
        assert(q@ =~= seq!['?']);
        string_of(&q)
    } else {
        let u = uppercase_char(v[0]);
        string_of(&u)
    }
}

/// Fixed logical pixel size for icons: the maximum wins (dunst's effective
/// behavior) but never below the minimum or 1, the minimum is the fallback
/// when the maximum is unbounded, `None` = natural size.
pub open spec fn icon_target_size_spec(min_icon_size: i32, max_icon_size: i32) -> Option<i32> {
    if max_icon_size > 0 {
        let lo = if min_icon_size < 1 {
            1
        } else {
            min_icon_size
        };
        Some(
            if max_icon_size < lo {
                lo
            } else {
                max_icon_size
            },
        )
    } else if min_icon_size > 0 {
        Some(min_icon_size)
    } else {
        None
    }
}

pub fn icon_target_size(min_icon_size: i32, max_icon_size: i32) -> (r: Option<i32>)
    ensures
        r == icon_target_size_spec(min_icon_size, max_icon_size),
{
    if max_icon_size > 0 {
        let lo = if min_icon_size < 1 {
            1
        } else {
            min_icon_size
        };
        Some(
            if max_icon_size < lo {
                lo
            } else {
                max_icon_size
            },
        )
    } else if min_icon_size > 0 {
        Some(min_icon_size)
    } else {
        None
    }
}

/// The pixel size of the first-letter placeholder: the icon size, 32 when
/// icons have their natural size, at least 8.
pub fn placeholder_size(min_icon_size: i32, max_icon_size: i32) -> (s: i32)
    ensures
        s == ({
            let t = match icon_target_size_spec(min_icon_size, max_icon_size) {
                Some(t) => t,
                None => 32,
            };
            if t < 8 {
                8
            } else {
                t
            }
        }),
{
    let t = match icon_target_size(min_icon_size, max_icon_size) {
        Some(t) => t,
        None => 32,
    };
    if t < 8 {
        8
    } else {
        t
    }
}

/// Where a notification's icon comes from.
#[derive(Debug, Clone, Copy, PartialEq, Eq, Structural)]
pub enum IconSource {
    /// No icon is shown: icons are disabled, positioned `off`, or none given.
    Hidden,
    /// The icon is an image file.
    File,
    /// The icon is a name in the icon theme.
    Theme,
}

pub open spec fn icon_source_spec(icons: bool, position: IconPosition, icon: Seq<char>) -> IconSource {
    if !icons || position == IconPosition::Off || icon.len() == 0 {
        IconSource::Hidden
    } else if is_path_spec(icon) {
        IconSource::File
    } else {
        IconSource::Theme
    }
}

pub fn icon_source(icons: bool, position: IconPosition, icon: &str) -> (r: IconSource)
    ensures
        r == icon_source_spec(icons, position, icon@),
{
    let empty = chars_of(icon).len() == 0;
    if !icons || position == IconPosition::Off || empty {
        IconSource::Hidden
    } else if is_path(icon) {
        IconSource::File
    } else {
        IconSource::Theme
    }
}

/// What a theme icon name resolves to.
#[derive(Debug, Clone, Copy, PartialEq, Eq, Structural)]
pub enum ThemeIcon {
    /// The theme has the requested icon.
    Named,
    /// Generic fallback: the theme's `dialog-information` icon.
    Fallback,
    /// Neither exists: show the first-letter placeholder.
    Letter,
}

pub fn theme_icon_choice(has_requested: bool, has_fallback: bool) -> (r: ThemeIcon)
    ensures
        r == (if has_requested {
            ThemeIcon::Named
        } else if has_fallback {
            ThemeIcon::Fallback
        } else {
            ThemeIcon::Letter
        }),
{
    if has_requested {
        ThemeIcon::Named
    } else if has_fallback {
        ThemeIcon::Fallback
    } else {
        ThemeIcon::Letter
    }
}

} // verus!
