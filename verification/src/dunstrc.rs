//! Reading a whole dunstrc text: lines, comments, `[section]` headers and
//! `key = value` pairs, collecting a warning for everything that is unknown
//! or malformed. Parsing never fails: malformed values keep their defaults.

use vstd::prelude::*;
use crate::text::{
    chars_of, dec_nat, dec_u64, debug_quoted, lines, lines_spec, lowercase, push_chars, push_lit,
    slice_chars, split_once, split_once_spec, str_debug, str_lowercase, string_of, trim,
    trim_chars, views,
};
use crate::config::{
    default_config, default_urgency_frame, Color, Config, ConfigView, UrgencyConfig,
};
use crate::values::{unquote, unquote_spec};
use crate::settings::{apply, apply_spec, unimplemented_notice, unimplemented_notice_spec};

verus! {

/// What the parser knows after some lines: the configuration so far, the
/// current section (lower-cased), the warnings so far, and the notices for
/// accepted keys that have no effect.
pub struct ParseState {
    pub cfg: ConfigView,
    pub section: Seq<char>,
    pub warnings: Seq<Seq<char>>,
    pub notices: Seq<Seq<char>>,
}

/// Blank lines and lines starting with `#` or `;` carry nothing.
pub open spec fn is_blank_or_comment(line: Seq<char>) -> bool {
    line.len() == 0 || line[0] == '#' || line[0] == ';'
}

/// `[name]`: the section's name, trimmed and lower-cased.
pub open spec fn section_header(line: Seq<char>) -> Option<Seq<char>> {
    if line.len() >= 2 && line[0] == '[' && line.last() == ']' {
        Some(str_lowercase(trim(line.subrange(1, line.len() - 1))))
    } else {
        None
    }
}

/// The effect of line number `n` (counting from 1) with text `raw`.
pub open spec fn line_step(st: ParseState, raw: Seq<char>, n: nat) -> ParseState {
    let line = trim(raw);
    if is_blank_or_comment(line) {
        st
    } else {
        match section_header(line) {
            Some(name) => ParseState { section: name, ..st },
            None => match split_once_spec(line, '=') {
                None => ParseState {
                    warnings: st.warnings.push(
                        "line "@ + dec_nat(n) + ": not a key=value pair: "@ + str_debug(line),
                    ),
                    ..st
                },
                Some((k, v)) => {
                    let key = str_lowercase(trim(k));
                    let value = unquote_spec(trim(v));
                    match apply_spec(st.cfg, st.section, key, value) {
                        Ok(c) => ParseState {
                            cfg: c,
                            notices: match unimplemented_notice_spec(st.section, key, value) {
                                Some(m) => st.notices.push(m),
                                None => st.notices,
                            },
                            ..st
                        },
                        Err(w) => ParseState {
                            warnings: st.warnings.push(
                                "line "@ + dec_nat(n) + " ["@ + st.section + "] "@ + key + ": "@
                                    + w,
                            ),
                            ..st
                        },
                    }
                },
            },
        }
    }
}

/// The state after the first `n` lines.
pub open spec fn parse_lines(ls: Seq<Seq<char>>, n: nat) -> ParseState
    decreases n,
{
    if n == 0 {
        ParseState {
            cfg: default_config(),
            section: Seq::empty(),
            warnings: Seq::empty(),
            notices: Seq::empty(),
        }
    } else {
        line_step(parse_lines(ls, (n - 1) as nat), ls[n - 1], n)
    }
}

/// An urgency section that kept the default frame color takes the global
/// one (dunst semantics: the global `frame_color` is the default that
/// urgency sections override).
pub open spec fn inherit_frame(u: UrgencyConfig, frame: Color) -> UrgencyConfig {
    if u.frame_color == default_urgency_frame() {
        UrgencyConfig { frame_color: frame, ..u }
    } else {
        u
    }
}

pub open spec fn finish(c: ConfigView) -> ConfigView {
    ConfigView {
        urgency: c.urgency.map_values(|u: UrgencyConfig| inherit_frame(u, c.global.frame_color)),
        ..c
    }
}

/// The configuration and the warnings a dunstrc text yields.
pub open spec fn parse_spec(content: Seq<char>) -> (ConfigView, Seq<Seq<char>>) {
    let st = parse_lines(lines_spec(content), lines_spec(content).len());
    (finish(st.cfg), st.warnings)
}

/// The notices a dunstrc text yields, in line order: one per accepted key
/// that has no effect (see [`unimplemented_notice_spec`]).
pub open spec fn parse_notices_spec(content: Seq<char>) -> Seq<Seq<char>> {
    parse_lines(lines_spec(content), lines_spec(content).len()).notices
}

/// The texts of a sequence of strings.
pub open spec fn texts(v: Seq<String>) -> Seq<Seq<char>> {
    v.map_values(|s: String| s@)
}

fn push_warning(warnings: &mut Vec<String>, w: &Vec<char>)
    ensures
        texts(final(warnings)@) == texts(old(warnings)@).push(w@),
{
    let s = string_of(w);
    warnings.push(s);
    assert(texts(final(warnings)@) =~= texts(old(warnings)@).push(w@));
}

/// Processes one line.
fn step(
    cfg: &mut Config,
    section: &mut Vec<char>,
    warnings: &mut Vec<String>,
    notices: &mut Vec<String>,
    raw: &Vec<char>,
    n: usize,
)
    ensures
        ({
            let st = line_step(
                ParseState {
                    cfg: old(cfg)@,
                    section: old(section)@,
                    warnings: texts(old(warnings)@),
                    notices: texts(old(notices)@),
                },
                raw@,
                n as nat,
            );
            &&& final(cfg)@ == st.cfg
            &&& final(section)@ == st.section
            &&& texts(final(warnings)@) == st.warnings
            &&& texts(final(notices)@) == st.notices
        }),
{
    let line = trim_chars(raw);
    let len = line.len();
    if len == 0 || line[0] == '#' || line[0] == ';' {
        return;
    }
    if len >= 2 && line[0] == '[' && line[len - 1] == ']' {
        let inner = slice_chars(&line, 1, len - 1);
        let name = trim_chars(&inner);
        *section = lowercase(&name);
        return;
    }
    match split_once(&line, '=') {
        None => {
            let mut m = chars_of("line ");
            let d = dec_u64(n as u64);
            push_chars(&mut m, &d);
            push_lit(&mut m, ": not a key=value pair: ");
            let q = debug_quoted(&line);
            push_chars(&mut m, &q);
            push_warning(warnings, &m);
        },
        Some((k, v)) => {
            let kt = trim_chars(&k);
            let key = lowercase(&kt);
            let vt = trim_chars(&v);
            let value = unquote(&vt);
            match apply(cfg, section, &key, &value) {
                Ok(()) => {
                    match unimplemented_notice(section, &key, &value) {
                        Some(m) => push_warning(notices, &m),
                        None => {},
                    }
                },
                Err(w) => {
                    let mut m = chars_of("line ");
                    let d = dec_u64(n as u64);
                    push_chars(&mut m, &d);
                    push_lit(&mut m, " [");
                    push_chars(&mut m, section);
                    push_lit(&mut m, "] ");
                    push_chars(&mut m, &key);
                    push_lit(&mut m, ": ");
                    push_chars(&mut m, &w);
                    push_warning(warnings, &m);
                },
            }
        },
    }
}

/// Parses dunstrc content into a configuration, collecting a warning for
/// anything unknown or malformed. Never fails: a malformed value leaves its
/// setting at the default (or at an earlier line's value).
pub fn parse(content: &str) -> (r: (Config, Vec<String>))
    ensures
        r.0@ == parse_spec(content@).0,
        texts(r.1@) == parse_spec(content@).1,
{
    let (cfg, warnings, _) = parse_with_notices(content);
    (cfg, warnings)
}

/// [`parse`], with the notices for accepted keys that have no effect
/// (for the daemon's log) as a third part.
pub fn parse_with_notices(content: &str) -> (r: (Config, Vec<String>, Vec<String>))
    ensures
        r.0@ == parse_spec(content@).0,
        texts(r.1@) == parse_spec(content@).1,
        texts(r.2@) == parse_notices_spec(content@),
{
    let text = chars_of(content);
    let ls = lines(&text);
    let ghost lv = views(ls@);
    let mut cfg = Config::default();
    let mut section: Vec<char> = Vec::new();
    let mut warnings: Vec<String> = Vec::new();
    let mut notices: Vec<String> = Vec::new();
    let mut i: usize = 0;
    assert(texts(warnings@) =~= Seq::<Seq<char>>::empty());
    assert(texts(notices@) =~= Seq::<Seq<char>>::empty());
    while i < ls.len()
        invariant
            i <= ls.len(),
            lv == views(ls@),
            lv == lines_spec(content@),
            lv.len() == ls.len(),
            parse_lines(lv, i as nat) == (ParseState {
                cfg: cfg@,
                section: section@,
                warnings: texts(warnings@),
                notices: texts(notices@),
            }),
        decreases ls.len() - i,
    {
        assert(lv[i as int] == ls@[i as int]@);
        assert(((i + 1) as nat - 1) as nat == i as nat);
        step(&mut cfg, &mut section, &mut warnings, &mut notices, &ls[i], i + 1);
        i = i + 1;
    }
    let frame = cfg.global.frame_color;
    let ghost before = cfg@;
    let low = inherit(cfg.urgency[0], frame);
    let normal = inherit(cfg.urgency[1], frame);
    let critical = inherit(cfg.urgency[2], frame);
    cfg.urgency = [low, normal, critical];
    assert(cfg@ =~= finish(before)) by {
        assert(cfg@.urgency =~= finish(before).urgency);
    }
    (cfg, warnings, notices)
}

fn inherit(u: UrgencyConfig, frame: Color) -> (r: UrgencyConfig)
    ensures
        r == inherit_frame(u, frame),
{
    let d = UrgencyConfig::default();
    if u.frame_color == d.frame_color {
        UrgencyConfig { frame_color: frame, ..u }
    } else {
        u
    }
}

/// Content with no settings (empty text) gives dunst's defaults and no
/// warning.
pub proof fn law_empty_content_gives_defaults()
    ensures
        parse_spec(Seq::<char>::empty()) == (default_config(), Seq::<Seq<char>>::empty()),
{
    let d = default_config();
    assert(finish(d).urgency =~= d.urgency);
    assert(finish(d) == d);
}

/// Blank lines and comment lines (`#` or `;` after leading white space)
/// change nothing.
pub proof fn law_comment_lines_ignored(st: ParseState, raw: Seq<char>, n: nat)
    requires
        is_blank_or_comment(trim(raw)),
    ensures
        line_step(st, raw, n) == st,
{
}

/// A line whose key or value is rejected keeps the configuration as it
/// was and adds exactly one warning, naming the line, section and key.
pub proof fn law_rejected_line_keeps_config(st: ParseState, raw: Seq<char>, n: nat)
    requires
        !is_blank_or_comment(trim(raw)),
        section_header(trim(raw)) is None,
        split_once_spec(trim(raw), '=') matches Some((k, v)) && apply_spec(
            st.cfg,
            st.section,
            str_lowercase(trim(k)),
            unquote_spec(trim(v)),
        ) is Err,
    ensures
        ({
            let st2 = line_step(st, raw, n);
            &&& st2.cfg == st.cfg
            &&& st2.section == st.section
            &&& st2.warnings.len() == st.warnings.len() + 1
            &&& st2.warnings.subrange(0, st.warnings.len() as int) == st.warnings
        }),
{
    let st2 = line_step(st, raw, n);
    assert(st2.warnings.subrange(0, st.warnings.len() as int) =~= st.warnings);
}

/// Every key of a section this daemon does not know (or does not
/// implement) is rejected with a warning, whatever its value.
pub proof fn law_unknown_sections_warn(cfg: ConfigView, section: Seq<char>, k: Seq<char>, v: Seq<char>)
    requires
        section.len() > 0,
        section != "global"@,
        section != "urgency_low"@,
        section != "urgency_normal"@,
        section != "urgency_critical"@,
    ensures
        apply_spec(cfg, section, k, v) is Err,
{
}

/// A key of the `[global]` section that dunst does not have is rejected
/// with a warning and changes nothing.
pub proof fn law_unknown_global_keys_warn(g: crate::config::GlobalView, k: Seq<char>, v: Seq<char>)
    requires
        !crate::settings::is_layout_key(k),
        !crate::settings::is_text_key(k),
        !crate::settings::is_icons_key(k),
        !crate::settings::is_behavior_key(k),
    ensures
        crate::settings::global_spec(g, k, v) == Err::<crate::config::GlobalView, Seq<char>>(
            crate::values::quoted_msg("unknown key "@, k),
        ),
{
}

/// After parsing, an urgency section takes the global frame color unless
/// it set a color of its own (a color other than the default).
pub proof fn law_frame_color_inherited(c: ConfigView, i: int)
    requires
        0 <= i < c.urgency.len(),
    ensures
        finish(c).urgency[i].frame_color == (if c.urgency[i].frame_color == default_urgency_frame() {
            c.global.frame_color
        } else {
            c.urgency[i].frame_color
        }),
        finish(c).global == c.global,
{
}

} // verus!
