use dunst_in_gtk::dunstrc::parse_with_notices;
use dunst_in_gtk::config::{
    parse, Alignment, Color, Config, ConfigFile, Ellipsize, Follow, IconPosition, Markup, Monitor,
    MouseAction, Origin, SizeSpec, UrgencyConfig,
};

#[test]
fn defaults_are_sane() {
    let c = Config::default();
    assert_eq!(c.global.origin, Origin::TopRight);
    assert_eq!(c.global.offset, (10, 10));
    assert_eq!(c.urgency[0].timeout, 10);
    assert_eq!(c.urgency[2].timeout, 0, "critical never expires");
    assert_eq!(c.global.font, "Monospace 8");
}

#[test]
fn parses_new_format_like_user_config() {
    let src = r##"
        [global]
        monitor = 0
        follow = mouse
        width = (500, 1000)
        height = (0,1000)
        origin = top-center
        offset = (0,100)
        padding = 20
        horizontal_padding = 20
        font = 鸿蒙黑体 14
        frame_width = 1
        frame_color = "#AAAAAA"
        alignment = center
        vertical_alignment = center
        word_wrap = yes
        ellipsize = middle
        icon_position = left
        min_icon_size = 64
        max_icon_size = 128
        mouse_left_click = close_current
        mouse_middle_click = do_action, close_current
        mouse_right_click = close_all

        [urgency_low]
        background = "#000000CC"
        foreground = "#CCCC00"
        timeout = 10

        [urgency_normal]
        background = "#000000AA"
        foreground = "#FFFFFF"
        timeout = 0

        [urgency_critical]
        background = "#000000CC"
        foreground = "#FFFF00"
        frame_color = "#FF0000"
        timeout = 0
    "##;
    let (c, warnings) = parse(src);
    assert!(warnings.is_empty(), "warnings: {warnings:?}");
    assert_eq!(c.global.width, SizeSpec::Range(500, 1000));
    assert_eq!(c.global.height, SizeSpec::Range(0, 1000));
    assert_eq!(c.global.origin, Origin::TopCenter);
    assert_eq!(c.global.offset, (0, 100));
    assert_eq!(c.global.font, "鸿蒙黑体 14");
    assert_eq!(c.global.frame_width, 1);
    assert_eq!(c.global.alignment, Alignment::Center);
    assert!(c.global.word_wrap);
    assert_eq!(c.global.ellipsize, Ellipsize::Middle);
    assert_eq!(c.global.icon_position, IconPosition::Left);
    assert_eq!(c.global.max_icon_size, 128);
    assert_eq!(c.global.follow, Follow::Mouse);
    assert_eq!(
        c.global.mouse_middle_click,
        vec![MouseAction::DoAction, MouseAction::CloseCurrent]
    );
    assert_eq!(c.urgency[0].background, Color { r: 0, g: 0, b: 0, a: 0xcc });
    assert_eq!(c.urgency[1].timeout, 0);
    assert_eq!(c.urgency[2].frame_color, Color { r: 0xff, g: 0, b: 0, a: 0xff });
}

#[test]
fn parses_legacy_geometry() {
    let src = "[global]\ngeometry = \"300x100-10+20\"\n";
    let (c, warnings) = parse(src);
    assert!(warnings.is_empty(), "{warnings:?}");
    assert_eq!(c.global.width, SizeSpec::Constant(300));
    assert_eq!(c.global.height, SizeSpec::Constant(100));
    assert_eq!(c.global.origin, Origin::TopRight);
    assert_eq!(c.global.offset, (10, 20));

    let src = "[global]\ngeometry = 0x0+10-10\n";
    let (c, _) = parse(src);
    assert_eq!(c.global.origin, Origin::BottomLeft);
    assert_eq!(c.global.offset, (10, 10));
}

/// A percentage keeps the number written before `%`; the window layer
/// turns it into the fraction 0.62 of the monitor.
#[test]
fn parses_legacy_offset_and_percent() {
    let (c, w) = parse("[global]\noffset = 10x300\nwidth = \"62%\"\n");
    assert!(w.is_empty(), "{w:?}");
    assert_eq!(c.global.offset, (10, 300));
    assert_eq!(c.global.width, SizeSpec::Percent("62".to_string()));
    match &c.global.width {
        SizeSpec::Percent(p) => {
            let fraction = p.parse::<f64>().unwrap().clamp(0.0, 200.0) / 100.0;
            assert_eq!(fraction, 0.62);
        }
        other => panic!("{other:?}"),
    }
}

#[test]
fn comments_quotes_and_case() {
    let src = r#"
        # full line comment
        ; also this
        [GLOBAL]
        FONT = "Sans 12"
        MARKUP = FULL
        word_wrap = no
    "#;
    let (c, warnings) = parse(src);
    assert!(warnings.is_empty(), "{warnings:?}");
    assert_eq!(c.global.font, "Sans 12");
    assert_eq!(c.global.markup, Markup::Full);
    assert!(!c.global.word_wrap);
}

#[test]
fn colors_all_formats() {
    let (c, w) = parse(
        "[urgency_low]\nbackground = #f00\nforeground = #00ff00\nframe_color = #0000FFFF\n",
    );
    assert!(w.is_empty(), "{w:?}");
    assert_eq!(c.urgency[0].background, Color { r: 255, g: 0, b: 0, a: 255 });
    assert_eq!(c.urgency[0].foreground, Color { r: 0, g: 255, b: 0, a: 255 });
    assert_eq!(c.urgency[0].frame_color, Color { r: 0, g: 0, b: 255, a: 255 });
}

#[test]
fn unknown_keys_and_sections_warn_but_keep_defaults() {
    let (c, warnings) = parse("[global]\nbogus_key = 1\n[urgency_low]\nnot_a_key = x\n");
    assert!(warnings.len() >= 2, "{warnings:?}");
    assert_eq!(c.global.gap_size, 0);
}

#[test]
fn malformed_values_warn() {
    let (_, warnings) = parse("[global]\nframe_width = notanumber\n");
    assert!(!warnings.is_empty());
}

/// The daemon found no file at the path: defaults and one message.
#[test]
fn missing_config_file_is_not_fatal() {
    let (cfg, warnings, _) =
        Config::from_file(&ConfigFile::NotFound("/nonexistent/dunstrc".to_string()));
    assert_eq!(cfg.global.origin, Origin::TopRight);
    assert!(!warnings.is_empty());
}

#[test]
fn css_rgba_output() {
    let c = Color { r: 0, g: 0, b: 0, a: 0xcc };
    assert_eq!(c.css_rgba(), "rgba(0, 0, 0, 0.800)");
}

// ---------------------------------------------------------------- additions

#[test]
fn warning_texts_name_line_section_and_key() {
    let (_, w) = parse("[global]\nframe_width = notanumber\nwhat\nkey = 1\n");
    assert_eq!(
        w,
        vec![
            "line 2 [global] frame_width: expected integer, got \"notanumber\"".to_string(),
            "line 3: not a key=value pair: \"what\"".to_string(),
            "line 4 [global] key: unknown key \"key\"".to_string(),
        ]
    );
    let (_, w) = parse("x = 1\n[Rules]\na = b\n[bogus]\nc = d\n");
    assert_eq!(
        w,
        vec![
            "line 1 [] x: key \"x\" outside any section".to_string(),
            "line 3 [rules] a: section [rules] not implemented".to_string(),
            "line 5 [bogus] c: unknown section [bogus]".to_string(),
        ]
    );
}

#[test]
fn every_value_parser_rejects_garbage() {
    let keys = [
        "width", "height", "origin", "offset", "geometry", "frame_color", "markup", "word_wrap",
        "ellipsize", "alignment", "vertical_alignment", "icon_position", "follow",
        "mouse_left_click", "transparency",
    ];
    for k in keys {
        let (c, w) = parse(&format!("[global]\n{k} = @@\n"));
        assert_eq!(w.len(), 1, "{k}: {w:?}");
        assert_eq!(c.global.origin, Origin::TopRight);
    }
    let (_, w) = parse("[global]\ngeometry = 300x100+1\n");
    assert_eq!(w, vec!["line 2 [global] geometry: expected number in \"\"".to_string()]);
    let (_, w) = parse("[global]\ngeometry = 300x100+1+2+3\n");
    assert_eq!(
        w,
        vec!["line 2 [global] geometry: trailing data in geometry \"300x100+1+2+3\"".to_string()]
    );
    let (_, w) = parse("[global]\nwidth = (1, 2, 3)\n");
    assert_eq!(w, vec!["line 2 [global] width: expected (min, max), got \"(1, 2, 3)\"".to_string()]);
    let (_, w) = parse("[urgency_low]\nbackground = #12345\n");
    assert_eq!(
        w,
        vec!["line 2 [urgency_low] background: expected #RGB/#RGBA/#RRGGBB/#RRGGBBAA, got \"#12345\"".to_string()]
    );
    let (_, w) = parse("[urgency_low]\nbackground = #12g\n");
    assert_eq!(w, vec!["line 2 [urgency_low] background: invalid hex in color \"#12g\"".to_string()]);
}

#[test]
fn keyword_values_and_clamps() {
    let src = "[global]\nfollow = focus\nmarkup = none\norigin = bottom_right\ntransparency = 250\nhistory_length = -4\nnotification_limit = 3\nmonitor = HDMI-1\nicons = off\nmouse_right_click = none, context\nscale = 2\n[urgency_critical]\ntimeout = -5\nicon = x\n";
    let (c, w) = parse(src);
    assert!(w.is_empty(), "{w:?}");
    assert_eq!(c.global.follow, Follow::Keyboard);
    assert_eq!(c.global.markup, Markup::No);
    assert_eq!(c.global.origin, Origin::BottomRight);
    assert_eq!(c.global.transparency, 100);
    assert_eq!(c.global.history_length, 0);
    assert_eq!(c.global.notification_limit, 3);
    assert_eq!(c.global.monitor, Monitor::Name("HDMI-1".to_string()));
    assert!(!c.global.icons);
    assert_eq!(c.global.mouse_right_click, vec![MouseAction::Nothing, MouseAction::Context]);
    assert_eq!(c.urgency[2].timeout, 0);
}

#[test]
fn global_frame_color_is_inherited_by_urgencies() {
    let (c, w) = parse("[global]\nframe_color = #123456\n[urgency_normal]\nframe_color = #abcdef\n");
    assert!(w.is_empty(), "{w:?}");
    let g = Color { r: 0x12, g: 0x34, b: 0x56, a: 255 };
    assert_eq!(c.urgency[0].frame_color, g);
    assert_eq!(c.urgency[1].frame_color, Color { r: 0xab, g: 0xcd, b: 0xef, a: 255 });
    assert_eq!(c.urgency[2].frame_color, g);
}

#[test]
fn empty_content_gives_defaults() {
    let (c, w) = parse("");
    assert!(w.is_empty());
    assert_eq!(c.global.offset, (10, 10));
    assert_eq!(c.urgency[1], UrgencyConfig::default());
}

#[test]
fn color_hex_text_round_trips() {
    for c in [
        Color { r: 0, g: 0, b: 0, a: 0 },
        Color { r: 0x12, g: 0xab, b: 0xff, a: 0x7f },
        Color::rgb(0xaa, 0xbb, 0xcc),
    ] {
        let text = c.hex();
        let (cfg, w) = parse(&format!("[urgency_low]\nhighlight = {text}\n"));
        assert!(w.is_empty());
        assert_eq!(cfg.urgency[0].highlight, c);
    }
    assert_eq!(Color::rgb(1, 2, 3).hex(), "#010203FF");
    assert_eq!(Color::rgb(1, 2, 3).with_alpha(0x40), Color { r: 1, g: 2, b: 3, a: 0x40 });
}

#[test]
fn css_alpha_rounds_to_thousandths() {
    assert_eq!(Color { r: 1, g: 22, b: 255, a: 255 }.css_rgba(), "rgba(1, 22, 255, 1.000)");
    assert_eq!(Color { r: 0, g: 0, b: 0, a: 0 }.css_rgba(), "rgba(0, 0, 0, 0.000)");
    assert_eq!(Color { r: 0, g: 0, b: 0, a: 1 }.css_rgba(), "rgba(0, 0, 0, 0.004)");
    assert_eq!(Color { r: 0, g: 0, b: 0, a: 128 }.css_rgba(), "rgba(0, 0, 0, 0.502)");
}

#[test]
fn non_hex_colors_warn_and_keep_defaults() {
    let d = Config::default();
    // "#aé": three bytes after '#', not all of them hex digits
    let (c, w) = parse("[urgency_low]\nbackground = #a\u{e9}\n");
    assert_eq!(c.urgency[0].background, d.urgency[0].background);
    assert_eq!(w, vec!["line 2 [urgency_low] background: invalid hex in color \"#a\u{e9}\"".to_string()]);
    let (c, w) = parse("[urgency_low]\nbackground = #\u{e9}\u{e9}\u{e9}\n");
    assert_eq!(c.urgency[0].background, d.urgency[0].background);
    assert_eq!(w.len(), 1);
    // a sign is not a hex digit
    let (c, w) = parse("[global]\nframe_color = \"#+f0000\"\n");
    assert_eq!(c.global.frame_color, d.global.frame_color);
    assert_eq!(w, vec!["line 2 [global] frame_color: invalid hex in color \"#+f0000\"".to_string()]);
    // a loaded file with such a value still gives the parsed configuration
    let (c, w, _) = Config::from_file(&ConfigFile::Read(
        "/z".into(),
        "[global]\ngap_size = 7\nframe_color = #\u{e9}0\n".into(),
    ));
    assert_eq!(c.global.gap_size, 7);
    assert_eq!(w[0], "loaded config from /z");
    assert_eq!(w.len(), 2);
}

#[test]
fn geometry_offset_without_absolute_value_warns() {
    let d = Config::default();
    let (c, w) = parse("[global]\ngeometry = 1x1-2147483648+0\n");
    assert_eq!(c.global.width, d.global.width);
    assert_eq!(c.global.offset, d.global.offset);
    assert_eq!(
        w,
        vec!["line 2 [global] geometry: offset out of range in geometry \"1x1-2147483648+0\"".to_string()]
    );
}

#[test]
fn monitor_and_urgency_lookup() {
    assert!(Monitor::Number(2).is_number(2));
    assert!(!Monitor::Name("2".to_string()).is_number(2));
    assert!(Monitor::Name("HDMI".to_string()).matches_name("HDMI-1"));
    assert!(!Monitor::Name("DP".to_string()).matches_name("HDMI-1"));
    let c = Config::default();
    assert_eq!(c.urgency(7).timeout, 0);
    assert_eq!(c.urgency(0).timeout, 10);
}

#[test]
fn load_messages() {
    let (_, w, _) = Config::from_file(&ConfigFile::NoPath);
    assert_eq!(w, vec!["no config file found; using defaults".to_string()]);
    let (_, w, _) = Config::from_file(&ConfigFile::Unreadable("/x".into(), "denied".into()));
    assert_eq!(w, vec!["cannot read /x: denied; using defaults".to_string()]);
    let (c, w, _) =
        Config::from_file(&ConfigFile::Read("/y".into(), "[global]\ngap_size = 4\nz\n".into()));
    assert_eq!(c.global.gap_size, 4);
    assert_eq!(w[0], "loaded config from /y");
    assert_eq!(w.len(), 2);
}

#[test]
fn accepted_keys_without_effect_give_notices() {
    let (c, w, n) = parse_with_notices(
        "[global]\nscale = 2\ngap_size = 3\n[urgency_critical]\nICON = \"x.png\"\n[frame]\nscale = 1\n",
    );
    assert_eq!(c.global.gap_size, 3);
    assert_eq!(w, vec!["line 7 [frame] scale: section [frame] not implemented".to_string()]);
    assert_eq!(
        n,
        vec![
            "config key scale (GTK handles HiDPI) (\"2\") parsed but not implemented yet".to_string(),
            "config key urgency icon override (\"x.png\") parsed but not implemented yet".to_string(),
        ]
    );
    let (_, _, n) = Config::from_file(&ConfigFile::Read("/y".into(), "[global]\nscale = 1\n".into()));
    assert_eq!(n.len(), 1);
    let (_, _, n) = Config::from_file(&ConfigFile::NoPath);
    assert!(n.is_empty());
}
