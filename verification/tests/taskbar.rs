use codex_pulse::taskbar::{
    bounds_from_rect, detail_layout, distance_to_bounds, docked_size, monitor_work_area_for_bounds,
    overlay_origin, taskbar_bounds_all, taskbar_dock_bounds, taskbar_windows_all, Bounds,
    PlacementMode, TaskbarWindow, COMPACT_HEIGHT, COMPACT_WIDTH, DETAIL_HEIGHT, DETAIL_WIDTH,
};

const WORK_AREA: Bounds = Bounds {
    left: 0,
    top: 0,
    right: 1920,
    bottom: 1000,
};

/// Physical pixels of a logical size at a display scale factor.
fn scaled(logical: u32, scale: f64) -> u32 {
    (f64::from(logical) * scale).round() as u32
}

fn layout(anchor: Bounds, work_area: Bounds, scale: f64) -> (i32, i32, u32, u32) {
    detail_layout(
        anchor,
        work_area,
        scaled(DETAIL_WIDTH, scale),
        scaled(DETAIL_HEIGHT, scale),
    )
}

#[test]
fn attaches_below_without_a_gap_near_the_top() {
    let anchor = Bounds {
        left: 20,
        top: 0,
        right: 326,
        bottom: 64,
    };
    let (_, y, _, height) = layout(anchor, WORK_AREA, 1.0);
    assert_eq!(y, anchor.bottom);
    assert_eq!(height, 496);
}

#[test]
fn attaches_above_without_a_gap_near_the_bottom() {
    let anchor = Bounds {
        left: 20,
        top: 936,
        right: 326,
        bottom: 1000,
    };
    let (_, y, _, height) = layout(anchor, WORK_AREA, 1.0);
    assert_eq!(y + height as i32, anchor.top);
    assert_eq!(height, 496);
}

#[test]
fn attaches_to_the_right_at_full_height_when_vertical_space_is_tight() {
    let anchor = Bounds {
        left: 20,
        top: 470,
        right: 326,
        bottom: 534,
    };
    let (x, y, _, height) = layout(anchor, WORK_AREA, 1.0);
    assert_eq!(x, anchor.right);
    assert_eq!(y, anchor.top);
    assert_eq!(height, 496);
}

#[test]
fn attaches_to_the_left_when_the_widget_is_near_the_right_edge() {
    let anchor = Bounds {
        left: 1500,
        top: 470,
        right: 1806,
        bottom: 534,
    };
    let (x, _, width, height) = layout(anchor, WORK_AREA, 1.0);
    assert_eq!(x + width as i32, anchor.left);
    assert_eq!(height, 496);
}

#[test]
fn detail_panel_is_capped_by_a_short_work_area() {
    let work_area = Bounds {
        left: 0,
        top: 0,
        right: 800,
        bottom: 300,
    };
    let anchor = Bounds {
        left: 10,
        top: 100,
        right: 316,
        bottom: 164,
    };
    let (x, y, width, height) = layout(anchor, work_area, 1.0);
    assert_eq!(height, 300);
    assert_eq!(width, 306);
    assert_eq!(x, 316);
    assert_eq!(y, 0);
}

#[test]
fn detail_panel_scales_with_the_display() {
    let anchor = Bounds {
        left: 20,
        top: 0,
        right: 403,
        bottom: 80,
    };
    let (x, y, width, height) = layout(anchor, WORK_AREA, 1.25);
    assert_eq!(width, 383);
    assert_eq!(height, 620);
    assert_eq!(x, 20);
    assert_eq!(y, 80);
}

#[test]
fn detail_panel_stays_inside_the_work_area_horizontally() {
    let anchor = Bounds {
        left: 1800,
        top: 0,
        right: 1900,
        bottom: 64,
    };
    let (x, _, width, _) = layout(anchor, WORK_AREA, 1.0);
    assert_eq!(x, 1920 - 306);
    assert!(x + width as i32 <= WORK_AREA.right);
}

#[test]
fn distance_is_zero_inside_and_squared_outside() {
    let bounds = Bounds {
        left: 0,
        top: 0,
        right: 10,
        bottom: 10,
    };
    assert_eq!(distance_to_bounds(5, 5, bounds), 0);
    assert_eq!(distance_to_bounds(10, 10, bounds), 0);
    assert_eq!(distance_to_bounds(13, 14, bounds), 9 + 16);
    assert_eq!(distance_to_bounds(-3, 5, bounds), 9);
}

#[test]
fn docks_on_the_nearest_horizontal_taskbar() {
    let taskbars = vec![
        Bounds {
            left: 0,
            top: 1040,
            right: 1920,
            bottom: 1080,
        },
        Bounds {
            left: 1920,
            top: 1040,
            right: 3840,
            bottom: 1080,
        },
    ];
    let current = Bounds {
        left: 2000,
        top: 900,
        right: 2306,
        bottom: 964,
    };
    let docked = taskbar_dock_bounds(&taskbars, current, 8, COMPACT_WIDTH as i32, COMPACT_HEIGHT as i32)
        .expect("a taskbar");
    assert_eq!(docked.left, 1928);
    assert_eq!(docked.right, 1928 + 306);
    assert_eq!(docked.top, 1040);
    assert_eq!(docked.bottom, 1080);
}

#[test]
fn docks_on_the_first_of_equally_near_taskbars() {
    let first = Bounds {
        left: 0,
        top: 0,
        right: 40,
        bottom: 1000,
    };
    let second = Bounds {
        left: 200,
        top: 0,
        right: 240,
        bottom: 1000,
    };
    let current = Bounds {
        left: 100,
        top: 100,
        right: 140,
        bottom: 164,
    };
    let docked = taskbar_dock_bounds(&vec![first, second], current, 8, 306, 64).expect("a taskbar");
    assert_eq!(docked.left, 0);
    assert_eq!(docked.right, 40);
    assert_eq!(docked.top, 8);
    assert_eq!(docked.bottom, 72);
}

#[test]
fn docking_needs_a_taskbar() {
    let current = Bounds {
        left: 0,
        top: 0,
        right: 10,
        bottom: 10,
    };
    assert!(taskbar_dock_bounds(&Vec::new(), current, 8, 306, 64).is_none());
}

#[test]
fn docked_widget_is_clamped_into_a_short_taskbar() {
    let taskbar = Bounds {
        left: 0,
        top: 1040,
        right: 200,
        bottom: 1080,
    };
    let current = Bounds {
        left: 0,
        top: 1040,
        right: 10,
        bottom: 1050,
    };
    let docked = taskbar_dock_bounds(&vec![taskbar], current, 8, 306, 64).expect("a taskbar");
    assert_eq!(docked.left, 0);
    assert_eq!(docked.right, 200);
}

#[test]
fn docked_size_is_at_least_one_pixel() {
    let flat = Bounds {
        left: 5,
        top: 5,
        right: 5,
        bottom: 4,
    };
    assert_eq!(docked_size(flat), (1, 1));
    let wide = Bounds {
        left: 10,
        top: 20,
        right: 316,
        bottom: 60,
    };
    assert_eq!(docked_size(wide), (306, 40));
}

#[test]
fn overlay_sits_at_the_bottom_left_with_a_margin() {
    let (x, y) = overlay_origin(WORK_AREA, 16, 64);
    assert_eq!(x, 16);
    assert_eq!(y, 1000 - 16 - 64);
    let tiny = Bounds {
        left: 0,
        top: 0,
        right: 100,
        bottom: 50,
    };
    assert_eq!(overlay_origin(tiny, 16, 64), (16, 0));
}

#[test]
fn rectangles_and_taskbar_lists() {
    let b = bounds_from_rect(-10, 20, 30, 40);
    assert_eq!((b.left, b.top, b.right, b.bottom), (-10, 20, 20, 60));
    let area = monitor_work_area_for_bounds(b).expect("an area");
    assert_eq!((area.left, area.top, area.right, area.bottom), (-10, 20, 20, 60));
    assert!(taskbar_windows_all().is_empty());
    let windows = vec![
        TaskbarWindow { hwnd: 7, bounds: b },
        TaskbarWindow {
            hwnd: 9,
            bounds: WORK_AREA,
        },
    ];
    let all = taskbar_bounds_all(&windows);
    assert_eq!(all.len(), 2);
    assert_eq!(all[0].left, -10);
    assert_eq!(all[1].right, 1920);
}

#[test]
fn placement_names_round_trip() {
    assert_eq!(PlacementMode::Taskbar.as_str(), "taskbar");
    assert_eq!(PlacementMode::Overlay.as_str(), "overlay");
    for mode in [PlacementMode::Taskbar, PlacementMode::Overlay] {
        assert_eq!(PlacementMode::parse(mode.as_str()), Some(mode));
    }
    assert_eq!(PlacementMode::parse("Taskbar"), None);
    assert_eq!(PlacementMode::default(), PlacementMode::Taskbar);
}
