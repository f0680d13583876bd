use dunst_in_gtk::config::{Origin, SizeSpec};
use dunst_in_gtk::layout::{
    corner_position, place_stack, resolve_size, stack_position, to_physical, MonitorGeometry,
};

const MON: MonitorGeometry = MonitorGeometry { x: 0, y: 0, width: 1920, height: 1080 };
// A monitor that is not at the origin (multi-monitor).
const MON2: MonitorGeometry = MonitorGeometry { x: 1920, y: 0, width: 1280, height: 1024 };

#[test]
fn top_right_stacks_downward_right_aligned() {
    let stack = [(300, 80), (300, 60), (300, 40)];
    let p0 = stack_position(Origin::TopRight, (10, 10), 0, MON, &stack, 0);
    let p1 = stack_position(Origin::TopRight, (10, 10), 0, MON, &stack, 1);
    let p2 = stack_position(Origin::TopRight, (10, 10), 0, MON, &stack, 2);
    assert_eq!(p0, (1920 - 10 - 300, 10));
    assert_eq!(p1, (1920 - 10 - 300, 10 + 80));
    assert_eq!(p2, (1920 - 10 - 300, 10 + 80 + 60));
    // Right-aligned: same x for all.
    assert_eq!(p0.0, p1.0);
    assert_eq!(p1.0, p2.0);
}

#[test]
fn bottom_right_stacks_upward() {
    let stack = [(300, 80), (300, 60)];
    let p0 = stack_position(Origin::BottomRight, (10, 10), 0, MON, &stack, 0);
    let p1 = stack_position(Origin::BottomRight, (10, 10), 0, MON, &stack, 1);
    assert_eq!(p0, (1920 - 10 - 300, 1080 - 10 - 80));
    assert_eq!(p1, (1920 - 10 - 300, 1080 - 10 - 80 - 60));
}

#[test]
fn top_left_stacks_downward_left_aligned() {
    let stack = [(200, 50)];
    let p = stack_position(Origin::TopLeft, (20, 30), 0, MON, &stack, 0);
    assert_eq!(p, (20, 30));
}

#[test]
fn gap_is_added_between_notifications() {
    let stack = [(300, 80), (300, 60), (300, 40)];
    let p2 = stack_position(Origin::TopRight, (10, 10), 5, MON, &stack, 2);
    assert_eq!(p2.1, 10 + 80 + 5 + 60 + 5); // two gaps before the third
}

#[test]
fn center_origins_center_on_the_other_axis() {
    let stack = [(300, 80)];
    let p = stack_position(Origin::TopCenter, (0, 10), 0, MON, &stack, 0);
    assert_eq!(p.0, (1920 - 300) / 2);
    assert_eq!(p.1, 10);
    let p = stack_position(Origin::Center, (0, 0), 0, MON, &stack, 0);
    assert_eq!(p.0, (1920 - 300) / 2);
    assert_eq!(p.1, (1080 - 80) / 2);
    let p = stack_position(Origin::Left, (5, 0), 0, MON, &stack, 0);
    assert_eq!(p.0, 5);
    assert_eq!(p.1, (1080 - 80) / 2);
}

#[test]
fn center_origin_centers_the_whole_stack() {
    // Two notifications at Center: the pair is centered as a unit.
    let stack = [(300, 80), (300, 60)];
    let total_h = 80 + 60;
    let p0 = stack_position(Origin::Center, (0, 0), 0, MON, &stack, 0);
    let p1 = stack_position(Origin::Center, (0, 0), 0, MON, &stack, 1);
    assert_eq!(p0.1, (1080 - total_h) / 2);
    assert_eq!(p1.1, (1080 - total_h) / 2 + 80);
}

#[test]
fn left_origin_stacks_rightward_vertically_centered() {
    let stack = [(200, 50), (200, 50)];
    let p0 = stack_position(Origin::Left, (10, 0), 4, MON, &stack, 0);
    let p1 = stack_position(Origin::Left, (10, 0), 4, MON, &stack, 1);
    assert_eq!(p0.0, 10);
    assert_eq!(p1.0, 10 + 200 + 4);
    let total_h = 50 + 4 + 50;
    assert_eq!(p0.1, (1080 - total_h) / 2);
    assert_eq!(p1.1, (1080 - total_h) / 2 + 50 + 4);
}

#[test]
fn offsets_on_secondary_monitor() {
    let stack = [(400, 100)];
    let p = stack_position(Origin::TopLeft, (0, 0), 0, MON2, &stack, 0);
    assert_eq!(p, (1920, 0));
    let p = stack_position(Origin::TopRight, (8, 8), 0, MON2, &stack, 0);
    assert_eq!(p, (1920 + 1280 - 8 - 400, 8));
}

/// The constant and range cases of the size specs; a percentage is a
/// fraction of the monitor that the window layer computes, so the library
/// answers `None` for it.
#[test]
fn size_specs() {
    assert_eq!(resolve_size(&SizeSpec::Constant(0), 120, 1920), Some(120));
    assert_eq!(resolve_size(&SizeSpec::Constant(300), 120, 1920), Some(300));
    assert_eq!(resolve_size(&SizeSpec::Range(0, 300), 120, 1920), Some(120));
    assert_eq!(resolve_size(&SizeSpec::Range(0, 300), 500, 1920), Some(300));
    assert_eq!(resolve_size(&SizeSpec::Range(200, 0), 120, 1920), Some(200));
    // A percentage is a floating-point fraction of the monitor, which the
    // window layer applies; the library leaves it to that layer.
    let half = SizeSpec::Percent("50".to_string());
    let twentieth = SizeSpec::Percent("5".to_string());
    assert_eq!(resolve_size(&half, 120, 1920), None);
    assert_eq!(resolve_size(&twentieth, 120, 1920), None);
    assert_eq!(percent_of_monitor(&half, 1920), 960);
    assert_eq!(percent_of_monitor(&twentieth, 1920), 96);
}

/// The window layer's percentage rule: the clamped percentage of the
/// monitor extent, truncated, at least 1.
fn percent_of_monitor(spec: &SizeSpec, monitor_extent: i32) -> i32 {
    let percent = match spec {
        SizeSpec::Percent(p) => p.parse::<f64>().unwrap_or(0.0),
        _ => 0.0,
    };
    ((monitor_extent as f64 * (percent.clamp(0.0, 200.0) / 100.0)) as i32).max(1)
}

// ---------------------------------------------------------------- additions

#[test]
fn negative_constant_and_negative_min_keep_natural() {
    assert_eq!(resolve_size(&SizeSpec::Constant(-5), 77, 1920), Some(77));
    assert_eq!(resolve_size(&SizeSpec::Range(-10, 0), -3, 1920), Some(0));
}

#[test]
fn bottom_left_and_bottom_center_grow_upward() {
    let stack = [(100, 30), (120, 20)];
    let p0 = stack_position(Origin::BottomLeft, (4, 6), 2, MON, &stack, 0);
    let p1 = stack_position(Origin::BottomLeft, (4, 6), 2, MON, &stack, 1);
    assert_eq!(p0, (4, 1080 - 6 - 30));
    assert_eq!(p1, (4, 1080 - 6 - 20 - 30 - 2));
    let c1 = stack_position(Origin::BottomCenter, (0, 6), 2, MON, &stack, 1);
    assert_eq!(c1, ((1920 - 120) / 2, 1080 - 6 - 20 - 30 - 2));
}

#[test]
fn right_origin_stacks_leftward() {
    let stack = [(200, 50), (100, 50)];
    let p0 = stack_position(Origin::Right, (10, 0), 4, MON, &stack, 0);
    let p1 = stack_position(Origin::Right, (10, 0), 4, MON, &stack, 1);
    assert_eq!(p0.0, 1920 - 10 - 200);
    assert_eq!(p1.0, 1920 - 10 - 100 - 200 - 4);
    assert_eq!(p1.0 + 100 + 4, p0.0);
}

#[test]
fn negative_gap_counts_as_none_and_centering_truncates() {
    let stack = [(301, 81), (300, 60)];
    let p1 = stack_position(Origin::TopLeft, (0, 0), -7, MON, &stack, 1);
    assert_eq!(p1, (0, 81));
    // (1919 - 301) / 2 = 809 (truncating); a negative free width rounds
    // toward zero too
    let narrow = MonitorGeometry { x: 0, y: 0, width: 1919, height: 100 };
    assert_eq!(stack_position(Origin::TopCenter, (0, 0), 0, narrow, &stack, 0).0, 809);
    let tiny = MonitorGeometry { x: 0, y: 0, width: 10, height: 100 };
    assert_eq!(stack_position(Origin::TopCenter, (0, 0), 0, tiny, &stack, 0).0, -145);
}

#[test]
fn place_stack_matches_stack_position() {
    let stack = vec![(300, 80), (300, 60), (300, 40)];
    let all = place_stack(Origin::TopRight, (10, 10), 3, MON, &stack);
    for (i, p) in all.iter().enumerate() {
        assert_eq!(*p, stack_position(Origin::TopRight, (10, 10), 3, MON, &stack, i));
    }
    assert_eq!(all, vec![(1610, 10), (1610, 93), (1610, 156)]);
}

#[test]
fn corner_position_insets_by_margin() {
    assert_eq!(corner_position(Some(MON2), 400), (1920 + 1280 - 400 - 12, 12));
    assert_eq!(corner_position(None, 400), (0, 0));
}

#[test]
fn physical_pixels_scale_by_factor() {
    assert_eq!(to_physical(10, 20, 300, 80, Some(2)), (20, 40, 600, 160));
    assert_eq!(to_physical(10, 20, 300, 80, Some(0)), (10, 20, 300, 80));
    assert_eq!(to_physical(10, 20, 300, 80, None), (10, 20, 300, 80));
}
