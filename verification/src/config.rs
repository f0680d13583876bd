//! The dunstrc data model: every setting of the `[global]` section and of
//! the three urgency sections, with the defaults dunst uses.

use vstd::prelude::*;
pub use crate::dunstrc::parse;
use crate::dunstrc::{parse_notices_spec, parse_spec, parse_with_notices, texts};
use crate::text::{chars_of, contains_chars, contains_text, dec_nat, dec_u64, digit_char, push_chars, push_lit, string_of};

verus! {

/// Where the notification stack is anchored on the monitor.
#[derive(Debug, Clone, Copy, PartialEq, Eq, Structural)]
pub enum Origin {
    TopLeft,
    TopCenter,
    TopRight,
    Left,
    Center,
    Right,
    BottomLeft,
    BottomCenter,
    BottomRight,
}

#[derive(Debug, Clone, Copy, PartialEq, Eq, Structural)]
pub enum Markup {
    Full,
    Strip,
    No,
}

#[derive(Debug, Clone, Copy, PartialEq, Eq, Structural)]
pub enum Alignment {
    Left,
    Center,
    Right,
}

#[derive(Debug, Clone, Copy, PartialEq, Eq, Structural)]
pub enum VerticalAlignment {
    Top,
    Center,
    Bottom,
}

#[derive(Debug, Clone, Copy, PartialEq, Eq, Structural)]
pub enum Ellipsize {
    Start,
    Middle,
    End,
}

#[derive(Debug, Clone, Copy, PartialEq, Eq, Structural)]
pub enum IconPosition {
    Left,
    Right,
    Top,
    Off,
}

#[derive(Debug, Clone, Copy, PartialEq, Eq, Structural)]
pub enum Follow {
    /// dunst's `none`: stay on the configured monitor.
    Off,
    Mouse,
    Keyboard,
}

#[derive(Debug, Clone, Copy, PartialEq, Eq, Structural)]
pub enum MouseAction {
    /// dunst's `none`.
    Nothing,
    CloseCurrent,
    CloseAll,
    DoAction,
    Context,
}

/// Size of a notification dimension: constant, (min, max) range, or percent
/// of the monitor. 0 / (0, 0) means "natural size" (content-driven).
///
/// A percentage is kept as the decimal text written before the `%` sign
/// (`"62"` for `62%`), checked to be a valid floating-point literal; the
/// window layer turns it into a fraction of the monitor.
#[derive(Debug, PartialEq)]
pub enum SizeSpec {
    Constant(i32),
    Range(i32, i32),
    Percent(String),
}

/// The mathematical value of a [`SizeSpec`].
pub enum SizeSpecView {
    Constant(i32),
    Range(i32, i32),
    Percent(Seq<char>),
}

impl Clone for SizeSpec {
    fn clone(&self) -> (c: Self)
        ensures
            c@ == self@,
    {
        match self {
            SizeSpec::Constant(w) => SizeSpec::Constant(*w),
            SizeSpec::Range(a, b) => SizeSpec::Range(*a, *b),
            SizeSpec::Percent(p) => SizeSpec::Percent(p.clone()),
        }
    }
}

impl View for SizeSpec {
    type V = SizeSpecView;

    open spec fn view(&self) -> SizeSpecView {
        match self {
            SizeSpec::Constant(w) => SizeSpecView::Constant(*w),
            SizeSpec::Range(a, b) => SizeSpecView::Range(*a, *b),
            SizeSpec::Percent(p) => SizeSpecView::Percent(p@),
        }
    }
}

/// An RGBA color.
#[derive(Debug, Clone, Copy, PartialEq, Eq, Structural)]
pub struct Color {
    pub r: u8,
    pub g: u8,
    pub b: u8,
    pub a: u8,
}

/// Upper-case hexadecimal digit.
pub open spec fn hex_digit_char(d: int) -> char {
    if d < 10 {
        digit_char(d)
    } else if d == 10 {
        'A'
    } else if d == 11 {
        'B'
    } else if d == 12 {
        'C'
    } else if d == 13 {
        'D'
    } else if d == 14 {
        'E'
    } else {
        'F'
    }
}

/// Two upper-case hexadecimal digits of a byte.
pub open spec fn hex_byte(n: u8) -> Seq<char> {
    seq![hex_digit_char((n / 16) as int), hex_digit_char((n % 16) as int)]
}

/// `#RRGGBBAA`, upper-case.
pub open spec fn color_hex_text(c: Color) -> Seq<char> {
    seq!['#'] + hex_byte(c.r) + hex_byte(c.g) + hex_byte(c.b) + hex_byte(c.a)
}

/// Alpha as a fraction of 255 in thousandths, rounded to the nearest
/// (never a tie: 255 does not divide 500 * a unless the quotient is whole).
pub open spec fn alpha_thousandths(a: u8) -> nat {
    ((2000 * a + 255) / 510) as nat
}

/// The alpha fraction with three decimals: `0.800` for `0xCC`.
pub open spec fn alpha_text(a: u8) -> Seq<char> {
    let m = alpha_thousandths(a);
    let f = m % 1000;
    dec_nat(m / 1000) + seq!['.'] + seq![
        digit_char((f / 100) as int),
        digit_char(((f / 10) % 10) as int),
        digit_char((f % 10) as int),
    ]
}

/// `rgba(r, g, b, alpha)` in CSS syntax.
pub open spec fn css_rgba_text(c: Color) -> Seq<char> {
    "rgba("@ + dec_nat(c.r as nat) + ", "@ + dec_nat(c.g as nat) + ", "@ + dec_nat(c.b as nat)
        + ", "@ + alpha_text(c.a) + ")"@
}

fn hex_digit(d: u8) -> (c: char)
    requires
        d < 16,
    ensures
        c == hex_digit_char(d as int),
{
    if d < 10 {
        let v = dec_u64(d as u64);
        v[0]
    } else if d == 10 {
        'A'
    } else if d == 11 {
        'B'
    } else if d == 12 {
        'C'
    } else if d == 13 {
        'D'
    } else if d == 14 {
        'E'
    } else {
        'F'
    }
}

fn push_hex_byte(v: &mut Vec<char>, n: u8)
    ensures
        final(v)@ == old(v)@ + hex_byte(n),
{
    v.push(hex_digit(n / 16));
    v.push(hex_digit(n % 16));
    assert(final(v)@ =~= old(v)@ + hex_byte(n));
}

impl Color {
    /// An opaque color.
    pub fn rgb(r: u8, g: u8, b: u8) -> (c: Self)
        ensures
            c == (Color { r, g, b, a: 255 }),
    {
        Self { r, g, b, a: 255 }
    }

    /// CSS `rgba(r, g, b, a)` string, for the style sheet.
    pub fn css_rgba(&self) -> (s: String)
        ensures
            s@ == css_rgba_text(*self),
    {
        let mut v = chars_of("rgba(");
        let d = dec_u64(self.r as u64);
        push_chars(&mut v, &d);
        push_lit(&mut v, ", ");
        let d = dec_u64(self.g as u64);
        push_chars(&mut v, &d);
        push_lit(&mut v, ", ");
        let d = dec_u64(self.b as u64);
        push_chars(&mut v, &d);
        push_lit(&mut v, ", ");
        let a = self.a as u64;
        let m: u64 = (2000 * a + 255) / 510;
        let d = dec_u64(m / 1000);
        push_chars(&mut v, &d);
        v.push('.');
        let f = m % 1000;
        let d1 = dec_u64(f / 100);
        let d2 = dec_u64((f / 10) % 10);
        let d3 = dec_u64(f % 10);
        v.push(d1[0]);
        v.push(d2[0]);
        v.push(d3[0]);
        push_lit(&mut v, ")");
        assert(v@ =~= css_rgba_text(*self));
        string_of(&v)
    }

    /// The same color with another alpha.
    pub fn with_alpha(&self, alpha: u8) -> (c: Self)
        ensures
            c == (Color { a: alpha, ..*self }),
    {
        Self { a: alpha, ..*self }
    }

    /// `#RRGGBBAA` in upper-case hexadecimal (what the color displays as).
    pub fn hex(&self) -> (s: String)
        ensures
            s@ == color_hex_text(*self),
    {
        let mut v: Vec<char> = Vec::new();
        v.push('#');
        push_hex_byte(&mut v, self.r);
        push_hex_byte(&mut v, self.g);
        push_hex_byte(&mut v, self.b);
        push_hex_byte(&mut v, self.a);
        assert(v@ =~= color_hex_text(*self));
        string_of(&v)
    }
}

/// Which monitor to show notifications on.
#[derive(Debug, PartialEq, Eq)]
pub enum Monitor {
    /// Number of the monitor, starting from 0.
    Number(i32),
    /// Monitor name, e.g. "HDMI-1" (matched against connector/description).
    Name(String),
}

pub enum MonitorView {
    Number(i32),
    Name(Seq<char>),
}

impl Clone for Monitor {
    fn clone(&self) -> (c: Self)
        ensures
            c@ == self@,
    {
        match self {
            Monitor::Number(n) => Monitor::Number(*n),
            Monitor::Name(s) => Monitor::Name(s.clone()),
        }
    }
}

impl View for Monitor {
    type V = MonitorView;

    open spec fn view(&self) -> MonitorView {
        match self {
            Monitor::Number(n) => MonitorView::Number(*n),
            Monitor::Name(s) => MonitorView::Name(s@),
        }
    }
}

impl Monitor {
    /// Is this the monitor with number `n`?
    pub fn is_number(&self, n: i32) -> (r: bool)
        ensures
            r == (self@ == MonitorView::Number(n)),
    {
        match self {
            Monitor::Number(m) => *m == n,
            Monitor::Name(_) => false,
        }
    }

    /// Does this monitor spec match the given connector/description string?
    pub fn matches_name(&self, name: &str) -> (r: bool)
        ensures
            r == (self@ matches MonitorView::Name(n) && contains_text(name@, n)),
    {
        match self {
            Monitor::Number(_) => false,
            Monitor::Name(n) => {
                let hay = chars_of(name);
                let needle = chars_of(n.as_str());
                contains_chars(&hay, &needle)
            },
        }
    }
}

/// The `[global]` section.
#[derive(Debug)]
pub struct GlobalConfig {
    pub width: SizeSpec,
    pub height: SizeSpec,
    pub origin: Origin,
    /// (horizontal, vertical) margin from the origin edges, in pixels.
    pub offset: (i32, i32),
    pub gap_size: i32,
    pub corner_radius: i32,
    pub frame_width: i32,
    /// Default frame color; urgency sections may override it.
    pub frame_color: Color,
    pub font: String,
    pub markup: Markup,
    pub word_wrap: bool,
    pub ellipsize: Ellipsize,
    pub alignment: Alignment,
    pub vertical_alignment: VerticalAlignment,
    pub icons: bool,
    pub icon_position: IconPosition,
    pub min_icon_size: i32,
    pub max_icon_size: i32,
    pub padding: i32,
    pub horizontal_padding: i32,
    pub text_icon_padding: i32,
    pub progress_bar: bool,
    pub progress_bar_height: i32,
    pub progress_bar_frame_width: i32,
    pub progress_bar_min_width: i32,
    pub progress_bar_max_width: i32,
    pub history_length: usize,
    /// 0 = opaque .. 100 = invisible.
    pub transparency: u8,
    pub monitor: Monitor,
    pub follow: Follow,
    /// 0 = unlimited.
    pub notification_limit: usize,
    pub sort: bool,
    pub mouse_left_click: Vec<MouseAction>,
    pub mouse_middle_click: Vec<MouseAction>,
    pub mouse_right_click: Vec<MouseAction>,
    // Recognized but not acted on; kept so real configs parse.
    pub stack_duplicates: bool,
    pub hide_duplicate_count: bool,
    pub ignore_newline: bool,
}

/// The mathematical value of a [`GlobalConfig`].
pub struct GlobalView {
    pub width: SizeSpecView,
    pub height: SizeSpecView,
    pub origin: Origin,
    pub offset: (i32, i32),
    pub gap_size: i32,
    pub corner_radius: i32,
    pub frame_width: i32,
    pub frame_color: Color,
    pub font: Seq<char>,
    pub markup: Markup,
    pub word_wrap: bool,
    pub ellipsize: Ellipsize,
    pub alignment: Alignment,
    pub vertical_alignment: VerticalAlignment,
    pub icons: bool,
    pub icon_position: IconPosition,
    pub min_icon_size: i32,
    pub max_icon_size: i32,
    pub padding: i32,
    pub horizontal_padding: i32,
    pub text_icon_padding: i32,
    pub progress_bar: bool,
    pub progress_bar_height: i32,
    pub progress_bar_frame_width: i32,
    pub progress_bar_min_width: i32,
    pub progress_bar_max_width: i32,
    pub history_length: usize,
    pub transparency: u8,
    pub monitor: MonitorView,
    pub follow: Follow,
    pub notification_limit: usize,
    pub sort: bool,
    pub mouse_left_click: Seq<MouseAction>,
    pub mouse_middle_click: Seq<MouseAction>,
    pub mouse_right_click: Seq<MouseAction>,
    pub stack_duplicates: bool,
    pub hide_duplicate_count: bool,
    pub ignore_newline: bool,
}

impl View for GlobalConfig {
    type V = GlobalView;

    open spec fn view(&self) -> GlobalView {
        GlobalView {
            width: self.width@,
            height: self.height@,
            origin: self.origin,
            offset: self.offset,
            gap_size: self.gap_size,
            corner_radius: self.corner_radius,
            frame_width: self.frame_width,
            frame_color: self.frame_color,
            font: self.font@,
            markup: self.markup,
            word_wrap: self.word_wrap,
            ellipsize: self.ellipsize,
            alignment: self.alignment,
            vertical_alignment: self.vertical_alignment,
            icons: self.icons,
            icon_position: self.icon_position,
            min_icon_size: self.min_icon_size,
            max_icon_size: self.max_icon_size,
            padding: self.padding,
            horizontal_padding: self.horizontal_padding,
            text_icon_padding: self.text_icon_padding,
            progress_bar: self.progress_bar,
            progress_bar_height: self.progress_bar_height,
            progress_bar_frame_width: self.progress_bar_frame_width,
            progress_bar_min_width: self.progress_bar_min_width,
            progress_bar_max_width: self.progress_bar_max_width,
            history_length: self.history_length,
            transparency: self.transparency,
            monitor: self.monitor@,
            follow: self.follow,
            notification_limit: self.notification_limit,
            sort: self.sort,
            mouse_left_click: self.mouse_left_click@,
            mouse_middle_click: self.mouse_middle_click@,
            mouse_right_click: self.mouse_right_click@,
            stack_duplicates: self.stack_duplicates,
            hide_duplicate_count: self.hide_duplicate_count,
            ignore_newline: self.ignore_newline,
        }
    }
}

fn copy_actions(v: &Vec<MouseAction>) -> (r: Vec<MouseAction>)
    ensures
        r@ == v@,
{
    let mut r: Vec<MouseAction> = Vec::new();
    let mut i: usize = 0;
    while i < v.len()
        invariant
            i <= v.len(),
            r@ == v@.subrange(0, i as int),
        decreases v.len() - i,
    {
        r.push(v[i]);
        i = i + 1;
    }
    assert(v@.subrange(0, v.len() as int) =~= v@);
    r
}

impl Clone for GlobalConfig {
    fn clone(&self) -> (c: Self)
        ensures
            c@ == self@,
    {
        GlobalConfig {
            width: self.width.clone(),
            height: self.height.clone(),
            origin: self.origin,
            offset: self.offset,
            gap_size: self.gap_size,
            corner_radius: self.corner_radius,
            frame_width: self.frame_width,
            frame_color: self.frame_color,
            font: self.font.clone(),
            markup: self.markup,
            word_wrap: self.word_wrap,
            ellipsize: self.ellipsize,
            alignment: self.alignment,
            vertical_alignment: self.vertical_alignment,
            icons: self.icons,
            icon_position: self.icon_position,
            min_icon_size: self.min_icon_size,
            max_icon_size: self.max_icon_size,
            padding: self.padding,
            horizontal_padding: self.horizontal_padding,
            text_icon_padding: self.text_icon_padding,
            progress_bar: self.progress_bar,
            progress_bar_height: self.progress_bar_height,
            progress_bar_frame_width: self.progress_bar_frame_width,
            progress_bar_min_width: self.progress_bar_min_width,
            progress_bar_max_width: self.progress_bar_max_width,
            history_length: self.history_length,
            transparency: self.transparency,
            monitor: self.monitor.clone(),
            follow: self.follow,
            notification_limit: self.notification_limit,
            sort: self.sort,
            mouse_left_click: copy_actions(&self.mouse_left_click),
            mouse_middle_click: copy_actions(&self.mouse_middle_click),
            mouse_right_click: copy_actions(&self.mouse_right_click),
            stack_duplicates: self.stack_duplicates,
            hide_duplicate_count: self.hide_duplicate_count,
            ignore_newline: self.ignore_newline,
        }
    }
}

/// dunst's defaults for the `[global]` section.
pub open spec fn default_global() -> GlobalView {
    GlobalView {
        width: SizeSpecView::Constant(0),
        height: SizeSpecView::Constant(0),
        origin: Origin::TopRight,
        offset: (10, 10),
        gap_size: 0,
        corner_radius: 0,
        frame_width: 0,
        frame_color: Color { r: 0xaa, g: 0xaa, b: 0xaa, a: 255 },
        font: "Monospace 8"@,
        markup: Markup::Full,
        word_wrap: false,
        ellipsize: Ellipsize::Middle,
        alignment: Alignment::Left,
        vertical_alignment: VerticalAlignment::Top,
        icons: true,
        icon_position: IconPosition::Left,
        min_icon_size: 32,
        max_icon_size: 64,
        padding: 8,
        horizontal_padding: 8,
        text_icon_padding: 0,
        progress_bar: true,
        progress_bar_height: 10,
        progress_bar_frame_width: 1,
        progress_bar_min_width: 150,
        progress_bar_max_width: 300,
        history_length: 20,
        transparency: 0,
        monitor: MonitorView::Number(0),
        follow: Follow::Off,
        notification_limit: 0,
        sort: true,
        mouse_left_click: seq![MouseAction::CloseCurrent],
        mouse_middle_click: seq![MouseAction::DoAction, MouseAction::CloseCurrent],
        mouse_right_click: seq![MouseAction::CloseAll],
        stack_duplicates: false,
        hide_duplicate_count: false,
        ignore_newline: false,
    }
}

impl Default for GlobalConfig {
    fn default() -> (g: Self)
        ensures
            g@ == default_global(),
    {
        let mut middle: Vec<MouseAction> = Vec::new();
        middle.push(MouseAction::DoAction);
        middle.push(MouseAction::CloseCurrent);
        let mut left: Vec<MouseAction> = Vec::new();
        left.push(MouseAction::CloseCurrent);
        let mut right: Vec<MouseAction> = Vec::new();
        right.push(MouseAction::CloseAll);
        let g = Self {
            width: SizeSpec::Constant(0),
            height: SizeSpec::Constant(0),
            origin: Origin::TopRight,
            offset: (10, 10),
            gap_size: 0,
            corner_radius: 0,
            frame_width: 0,
            frame_color: Color::rgb(0xaa, 0xaa, 0xaa),
            font: string_of(&chars_of("Monospace 8")),
            markup: Markup::Full,
            word_wrap: false,
            ellipsize: Ellipsize::Middle,
            alignment: Alignment::Left,
            vertical_alignment: VerticalAlignment::Top,
            icons: true,
            icon_position: IconPosition::Left,
            min_icon_size: 32,
            max_icon_size: 64,
            padding: 8,
            horizontal_padding: 8,
            text_icon_padding: 0,
            progress_bar: true,
            progress_bar_height: 10,
            progress_bar_frame_width: 1,
            progress_bar_min_width: 150,
            progress_bar_max_width: 300,
            history_length: 20,
            transparency: 0,
            monitor: Monitor::Number(0),
            follow: Follow::Off,
            notification_limit: 0,
            sort: true,
            mouse_left_click: left,
            mouse_middle_click: middle,
            mouse_right_click: right,
            stack_duplicates: false,
            hide_duplicate_count: false,
            ignore_newline: false,
        };
        assert(g@.mouse_left_click =~= default_global().mouse_left_click);
        assert(g@.mouse_middle_click =~= default_global().mouse_middle_click);
        assert(g@.mouse_right_click =~= default_global().mouse_right_click);
        g
    }
}

/// Per-urgency overrides. The urgency sections only allow these keys
/// (background, foreground, highlight, timeout, frame_color, icon).
#[derive(Debug, Clone, Copy, PartialEq, Eq, Structural)]
pub struct UrgencyConfig {
    /// Timeout in seconds; 0 = never expires.
    pub timeout: i32,
    pub background: Color,
    pub foreground: Color,
    pub frame_color: Color,
    pub highlight: Color,
}

/// The frame color an urgency section has unless it sets one.
pub open spec fn default_urgency_frame() -> Color {
    Color { r: 0xaa, g: 0xaa, b: 0xaa, a: 255 }
}

/// dunst's defaults for an urgency section.
pub open spec fn default_urgency() -> UrgencyConfig {
    UrgencyConfig {
        timeout: 10,
        background: Color { r: 0xcc, g: 0xcc, b: 0xcc, a: 255 },
        foreground: Color { r: 0, g: 0, b: 0, a: 255 },
        frame_color: default_urgency_frame(),
        highlight: Color { r: 0x2e, g: 0xcc, b: 0x71, a: 255 },
    }
}

impl Default for UrgencyConfig {
    fn default() -> (u: Self)
        ensures
            u == default_urgency(),
    {
        Self {
            timeout: 10,
            background: Color::rgb(0xcc, 0xcc, 0xcc),
            foreground: Color::rgb(0x00, 0x00, 0x00),
            frame_color: Color::rgb(0xaa, 0xaa, 0xaa),
            highlight: Color::rgb(0x2e, 0xcc, 0x71),
        }
    }
}

/// The whole configuration.
#[derive(Debug)]
pub struct Config {
    pub global: GlobalConfig,
    /// [low, normal, critical]
    pub urgency: [UrgencyConfig; 3],
}

/// The mathematical value of a [`Config`].
pub struct ConfigView {
    pub global: GlobalView,
    /// [low, normal, critical]
    pub urgency: Seq<UrgencyConfig>,
}

impl Clone for Config {
    fn clone(&self) -> (c: Self)
        ensures
            c@ == self@,
    {
        let c = Config {
            global: self.global.clone(),
            urgency: [self.urgency[0], self.urgency[1], self.urgency[2]],
        };
        assert(c@.urgency =~= self@.urgency);
        c
    }
}

impl View for Config {
    type V = ConfigView;

    open spec fn view(&self) -> ConfigView {
        ConfigView { global: self.global@, urgency: self.urgency@ }
    }
}

/// dunst's defaults: low and normal notifications expire after 10 s,
/// critical ones never.
pub open spec fn default_config() -> ConfigView {
    ConfigView {
        global: default_global(),
        urgency: seq![
            default_urgency(),
            default_urgency(),
            UrgencyConfig { timeout: 0, ..default_urgency() },
        ],
    }
}

impl Default for Config {
    fn default() -> (c: Self)
        ensures
            c@ == default_config(),
    {
        let low = UrgencyConfig::default();
        let normal = UrgencyConfig::default();
        let mut critical = UrgencyConfig::default();
        critical.timeout = 0;
        let c = Self { global: GlobalConfig::default(), urgency: [low, normal, critical] };
        assert(c@.urgency =~= default_config().urgency);
        c
    }
}

/// The urgency section used for an urgency level: 0 low, 1 normal, 2 and
/// above critical.
pub open spec fn urgency_index(level: u8) -> int {
    if level < 2 {
        level as int
    } else {
        2
    }
}

/// Urgency levels pick their sections one to one: low (0), normal (1) and
/// critical (2) select sections 0, 1 and 2 of `[low, normal, critical]`, and
/// any higher level counts as critical.
pub proof fn law_urgency_level_selects_its_section(level: u8)
    ensures
        level <= 2 ==> urgency_index(level) == level as int,
        level > 2 ==> urgency_index(level) == 2,
        0 <= urgency_index(level) < 3,
{
}

impl Config {
    /// Settings of the urgency section for `level` (levels above 2 count as
    /// critical).
    pub fn urgency(&self, level: u8) -> (u: &UrgencyConfig)
        ensures
            *u == self@.urgency[urgency_index(level)],
    {
        let i: usize = if level < 2 {
            level as usize
        } else {
            2
        };
        &self.urgency[i]
    }
}

/// What the daemon found where its configuration should be.
pub enum ConfigFile {
    /// No path was given and none could be derived from the environment.
    NoPath,
    /// The path (as displayed) names no regular file.
    NotFound(String),
    /// The file exists but could not be read: path and error text.
    Unreadable(String, String),
    /// The path and the file's content.
    Read(String, String),
}

/// The configuration and the messages for what was found: the parsed file
/// with `loaded config from <path>` before its warnings, or the defaults
/// with one message saying why.
pub open spec fn load_spec(file: ConfigFile) -> (ConfigView, Seq<Seq<char>>) {
    match file {
        ConfigFile::NoPath => (default_config(), seq!["no config file found; using defaults"@]),
        ConfigFile::NotFound(p) => (
            default_config(),
            seq!["config "@ + p@ + " not found; using defaults"@],
        ),
        ConfigFile::Unreadable(p, e) => (
            default_config(),
            seq!["cannot read "@ + p@ + ": "@ + e@ + "; using defaults"@],
        ),
        ConfigFile::Read(p, content) => {
            let (c, w) = parse_spec(content@);
            (c, seq!["loaded config from "@ + p@] + w)
        },
    }
}

/// The notices for accepted keys that have no effect: those of the file's
/// content when one was read, none otherwise.
pub open spec fn load_notices_spec(file: ConfigFile) -> Seq<Seq<char>> {
    match file {
        ConfigFile::Read(_, content) => parse_notices_spec(content@),
        _ => Seq::empty(),
    }
}

fn no_notices() -> (r: Vec<String>)
    ensures
        texts(r@) == Seq::<Seq<char>>::empty(),
{
    let r: Vec<String> = Vec::new();
    assert(texts(r@) =~= Seq::<Seq<char>>::empty());
    r
}

fn one_message(parts: &Vec<char>) -> (r: Vec<String>)
    ensures
        texts(r@) == seq![parts@],
{
    let mut r: Vec<String> = Vec::new();
    r.push(string_of(parts));
    assert(texts(r@) =~= seq![parts@]);
    r
}

impl Config {
    /// Builds the configuration from what the daemon found on disk.
    /// The third part holds the notices for accepted keys that have no
    /// effect, for the daemon's log.
    pub fn from_file(file: &ConfigFile) -> (r: (Config, Vec<String>, Vec<String>))
        ensures
            r.0@ == load_spec(*file).0,
            texts(r.1@) == load_spec(*file).1,
            texts(r.2@) == load_notices_spec(*file),
    {
        match file {
            ConfigFile::NoPath => {
                let m = chars_of("no config file found; using defaults");
                (Config::default(), one_message(&m), no_notices())
            },
            ConfigFile::NotFound(p) => {
                let mut m = chars_of("config ");
                push_lit(&mut m, p.as_str());
                push_lit(&mut m, " not found; using defaults");
                (Config::default(), one_message(&m), no_notices())
            },
            ConfigFile::Unreadable(p, e) => {
                let mut m = chars_of("cannot read ");
                push_lit(&mut m, p.as_str());
                push_lit(&mut m, ": ");
                push_lit(&mut m, e.as_str());
                push_lit(&mut m, "; using defaults");
                (Config::default(), one_message(&m), no_notices())
            },
            ConfigFile::Read(p, content) => {
                let (cfg, warnings, notices) = parse_with_notices(content.as_str());
                {
                    let mut m = chars_of("loaded config from ");
                    push_lit(&mut m, p.as_str());
                    let mut all = one_message(&m);
                    let ghost first = texts(all@);
                    let mut i: usize = 0;
                    while i < warnings.len()
                        invariant
                            i <= warnings.len(),
                            texts(all@) == first + texts(warnings@).subrange(0, i as int),
                        decreases warnings.len() - i,
                    {
                        let ghost prev = texts(all@);
                        let w = warnings[i].clone();
                        assert(w@ == warnings@[i as int]@);
                        all.push(w);
                        assert(texts(all@) =~= prev.push(warnings@[i as int]@));
                        assert(texts(warnings@).subrange(0, i + 1) =~= texts(warnings@).subrange(
                            0,
                            i as int,
                        ).push(warnings@[i as int]@));
                        i = i + 1;
                        assert(texts(all@) =~= first + texts(warnings@).subrange(0, i as int));
                    }
                    assert(texts(warnings@).subrange(0, warnings.len() as int) =~= texts(
                        warnings@,
                    ));
                    (cfg, all, notices)
                }
            },
        }
    }
}

} // verus!
