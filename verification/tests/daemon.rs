use dunst_in_gtk::config::{Config, Follow, IconPosition, Monitor};
use dunst_in_gtk::config::Origin;
use dunst_in_gtk::daemon::{expiry_ms, layout_plan, pick_monitor, stacking_order, MonitorChoice, WindowGeometry};
use dunst_in_gtk::layout::MonitorGeometry;
use dunst_in_gtk::dbus::{capabilities, server_information, urgency_from_hint, DbusEvent, NotificationIds};
use dunst_in_gtk::icons::{
    first_letter, icon_source, icon_target_size, is_path, placeholder_size, theme_icon_choice,
    IconSource, ThemeIcon,
};

#[test]
fn path_detection() {
    assert!(is_path("/usr/share/icons/x.png"));
    assert!(is_path("~/icons/x.png"));
    assert!(is_path("rel/dir/icon.png"));
    assert!(is_path("./icon.png"));
    assert!(!is_path("dialog-information"));
    assert!(!is_path("firefox"));
    assert!(!is_path(""));
}

#[test]
fn first_letter_upper() {
    assert_eq!(first_letter("firefox"), "F");
    assert_eq!(first_letter(""), "?");
    assert_eq!(first_letter(" irc"), " ");
}

#[test]
fn first_letter_uses_full_case_mapping() {
    assert_eq!(first_letter("ßtraße"), "SS");
    assert_eq!(first_letter("élan"), "É");
}

#[test]
fn icon_sizes() {
    assert_eq!(icon_target_size(32, 64), Some(64));
    assert_eq!(icon_target_size(80, 64), Some(80));
    assert_eq!(icon_target_size(0, 0), None);
    assert_eq!(icon_target_size(16, 0), Some(16));
    assert_eq!(icon_target_size(-3, 5), Some(5));
    assert_eq!(placeholder_size(0, 0), 32);
    assert_eq!(placeholder_size(0, 4), 8);
}

#[test]
fn icon_sources() {
    assert_eq!(icon_source(true, IconPosition::Left, "/a.png"), IconSource::File);
    assert_eq!(icon_source(true, IconPosition::Left, "firefox"), IconSource::Theme);
    assert_eq!(icon_source(true, IconPosition::Off, "firefox"), IconSource::Hidden);
    assert_eq!(icon_source(false, IconPosition::Left, "firefox"), IconSource::Hidden);
    assert_eq!(icon_source(true, IconPosition::Top, ""), IconSource::Hidden);
    assert_eq!(theme_icon_choice(true, false), ThemeIcon::Named);
    assert_eq!(theme_icon_choice(false, true), ThemeIcon::Fallback);
    assert_eq!(theme_icon_choice(false, false), ThemeIcon::Letter);
}

#[test]
fn expiry_prefers_explicit_timeout() {
    let c = Config::default();
    assert_eq!(expiry_ms(&c, 2500, 1), 2500);
    assert_eq!(expiry_ms(&c, -1, 1), 10_000);
    assert_eq!(expiry_ms(&c, -1, 2), 0);
    assert_eq!(expiry_ms(&c, 0, 0), 0);
}

#[test]
fn stacking_order_by_urgency_then_arrival() {
    let entries = vec![(5, 1), (2, 1), (9, 2), (1, 0), (7, 2)];
    assert_eq!(stacking_order(&entries, true), vec![(7, 2), (9, 2), (2, 1), (5, 1), (1, 0)]);
    assert_eq!(stacking_order(&entries, false), vec![(1, 0), (2, 1), (5, 1), (7, 2), (9, 2)]);
    let shuffled = vec![(1, 0), (7, 2), (5, 1), (9, 2), (2, 1)];
    assert_eq!(stacking_order(&shuffled, true), stacking_order(&entries, true));
}

#[test]
fn monitor_choice() {
    let cons = vec![Some("eDP-1".to_string()), None, Some("HDMI-1".to_string())];
    assert_eq!(pick_monitor(Follow::Off, &Monitor::Number(2), &cons, true), Some(MonitorChoice::Index(2)));
    assert_eq!(pick_monitor(Follow::Off, &Monitor::Number(9), &cons, true), Some(MonitorChoice::Index(0)));
    assert_eq!(pick_monitor(Follow::Keyboard, &Monitor::Number(-1), &cons, true), Some(MonitorChoice::Index(0)));
    assert_eq!(
        pick_monitor(Follow::Off, &Monitor::Name("HDMI".to_string()), &cons, false),
        Some(MonitorChoice::Index(2))
    );
    assert_eq!(
        pick_monitor(Follow::Off, &Monitor::Name("DP-9".to_string()), &cons, false),
        Some(MonitorChoice::Index(0))
    );
    assert_eq!(pick_monitor(Follow::Mouse, &Monitor::Number(2), &cons, true), Some(MonitorChoice::Pointer));
    assert_eq!(pick_monitor(Follow::Mouse, &Monitor::Number(2), &cons, false), Some(MonitorChoice::Index(0)));
    assert_eq!(pick_monitor(Follow::Mouse, &Monitor::Number(0), &vec![], true), None);
}

#[test]
fn ids_are_sequential_and_close_is_once() {
    let mut ids = NotificationIds::new();
    assert_eq!(ids.assign(), 1);
    assert_eq!(ids.assign(), 2);
    assert!(ids.is_live(1));
    match ids.close(1) {
        Some(DbusEvent::Close { id, reason }) => {
            assert_eq!(id, 1);
            assert_eq!(reason, 3);
        }
        other => panic!("{other:?}"),
    }
    assert!(ids.close(1).is_none());
    assert!(ids.close(42).is_none());
    assert!(ids.is_live(2));
}

#[test]
fn server_answers() {
    assert_eq!(capabilities(), vec!["body".to_string()]);
    let info = server_information("0.1.0");
    assert_eq!(info, ("dunst-in-gtk".into(), "dunst-in-gtk".into(), "0.1.0".into(), "1.2".into()));
    assert_eq!(urgency_from_hint(None), 1);
    assert_eq!(urgency_from_hint(Some(2)), 2);
}

#[test]
fn notify_numbers_from_one_and_builds_the_show_event() {
    let mut ids = NotificationIds::new();
    for k in 1..=3u32 {
        let (id, event) = ids.notify(
            format!("app{k}"),
            String::new(),
            "s".into(),
            "b".into(),
            Some(":1.7".into()),
            -1,
            if k == 2 { Some(2) } else { None },
        );
        assert_eq!(id, k);
        assert!(ids.is_live(k));
        match event {
            DbusEvent::Show { id: e, app_name, client, expire_timeout, urgency, .. } => {
                assert_eq!(e, k);
                assert_eq!(app_name, format!("app{k}"));
                assert_eq!(client, Some(":1.7".to_string()));
                assert_eq!(expire_timeout, -1);
                assert_eq!(urgency, if k == 2 { 2 } else { 1 });
            }
            other => panic!("{other:?}"),
        }
    }
}

#[test]
fn layout_plan_places_windows_in_stacking_order() {
    let mon = MonitorGeometry { x: 0, y: 0, width: 1920, height: 1080 };
    let ordered = stacking_order(&vec![(5, 1), (3, 2), (4, 1)], true);
    assert_eq!(ordered, vec![(3, 2), (4, 1), (5, 1)]);
    let sizes = vec![(300, 80), (300, 60), (200, 40)];
    let plan = layout_plan(&ordered, &sizes, Origin::TopRight, (10, 10), 5, mon).unwrap();
    assert_eq!(
        plan,
        vec![
            WindowGeometry { id: 3, x: 1610, y: 10, width: 300, height: 80 },
            WindowGeometry { id: 4, x: 1610, y: 95, width: 300, height: 60 },
            WindowGeometry { id: 5, x: 1710, y: 160, width: 200, height: 40 },
        ]
    );
    let huge = vec![(10, i32::MAX), (10, i32::MAX)];
    assert!(layout_plan(&vec![(1, 1), (2, 1)], &huge, Origin::TopLeft, (0, 0), 0, mon).is_none());
}
