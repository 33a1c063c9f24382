use clash_verge::window_state::{
    as_i32, restore_window_state, saturating_add_i32, window_rect_intersects_any_monitor,
    window_state_data, window_state_path, MonitorRect, PositionAction, WindowStateData,
};
use clash_verge::dirs::DirsEnv;
use clash_verge::path::{AppPath, Platform};

fn monitor(x: i32, y: i32, width: u32, height: u32) -> MonitorRect {
    MonitorRect { x, y, width, height }
}

#[test]
fn unknown_or_no_monitors_accept_any_rect() {
    assert!(window_rect_intersects_any_monitor(&None, 100_000, 100_000, 10, 10));
    assert!(window_rect_intersects_any_monitor(&Some(vec![]), -5_000, 0, 1, 1));
}

#[test]
fn overlap_with_one_of_several_monitors() {
    let ms = Some(vec![monitor(0, 0, 1920, 1080), monitor(1920, 0, 1280, 1024)]);
    assert!(window_rect_intersects_any_monitor(&ms, 100, 100, 940, 700));
    assert!(window_rect_intersects_any_monitor(&ms, 3000, 900, 940, 700));
    assert!(!window_rect_intersects_any_monitor(&ms, 3200, 0, 940, 700));
    assert!(!window_rect_intersects_any_monitor(&ms, -940, 0, 940, 700));
    assert!(window_rect_intersects_any_monitor(&ms, -939, 0, 940, 700));
    assert!(!window_rect_intersects_any_monitor(&ms, 0, 1080, 940, 700));
}

#[test]
fn sizes_wrap_and_edges_saturate() {
    assert_eq!(as_i32(5), 5);
    assert_eq!(as_i32(u32::MAX), -1);
    assert_eq!(as_i32(0x8000_0000), i32::MIN);
    assert_eq!(saturating_add_i32(i32::MAX, 1), i32::MAX);
    assert_eq!(saturating_add_i32(i32::MIN, -1), i32::MIN);
    assert_eq!(saturating_add_i32(3, -5), -2);
    let ms = Some(vec![monitor(0, 0, 1920, 1080)]);
    // a width of u32::MAX counts as -1: the right edge is x - 1
    assert!(!window_rect_intersects_any_monitor(&ms, 0, 10, u32::MAX, 100));
    assert!(window_rect_intersects_any_monitor(&ms, 10, 10, u32::MAX, 100));
    assert!(window_rect_intersects_any_monitor(&ms, i32::MAX - 5, 10, 100, 100) == false);
    let huge = Some(vec![monitor(i32::MAX - 10, 0, 1_000_000, 10)]);
    assert!(window_rect_intersects_any_monitor(&huge, i32::MAX - 1, 0, 10, 10));
}

#[test]
fn restore_moves_centres_or_keeps() {
    let ms = Some(vec![monitor(0, 0, 1920, 1080)]);
    let on = WindowStateData { x: Some(10), y: Some(20), width: Some(800), height: Some(600) };
    let plan = restore_window_state(&on, &ms);
    assert_eq!(plan.position, PositionAction::MoveTo(10, 20));
    assert_eq!(plan.size, Some((800, 600)));

    let off = WindowStateData { x: Some(5000), y: Some(20), width: None, height: Some(600) };
    let plan = restore_window_state(&off, &ms);
    assert_eq!(plan.position, PositionAction::Center);
    assert_eq!(plan.size, None);

    let none = WindowStateData { x: None, y: Some(20), width: Some(800), height: Some(600) };
    let plan = restore_window_state(&none, &ms);
    assert_eq!(plan.position, PositionAction::Keep);
    assert_eq!(plan.size, Some((800, 600)));
}

#[test]
fn restore_uses_default_size_for_the_overlap_test() {
    let ms = Some(vec![monitor(0, 0, 1920, 1080)]);
    // 940 wide by default: a window at x = -939 still shows one pixel
    let d = WindowStateData { x: Some(-939), y: Some(0), width: None, height: None };
    assert_eq!(restore_window_state(&d, &ms).position, PositionAction::MoveTo(-939, 0));
    let d = WindowStateData { x: Some(-940), y: Some(0), width: None, height: None };
    assert_eq!(restore_window_state(&d, &ms).position, PositionAction::Center);
    let d = WindowStateData { x: Some(0), y: Some(-699), width: None, height: None };
    assert_eq!(restore_window_state(&d, &ms).position, PositionAction::MoveTo(0, -699));
    let d = WindowStateData { x: Some(0), y: Some(-700), width: None, height: None };
    assert_eq!(restore_window_state(&d, &ms).position, PositionAction::Center);
}

#[test]
fn save_then_restore_gives_geometry_back() {
    let ms = Some(vec![monitor(0, 0, 2560, 1440)]);
    let saved = window_state_data(Some((300, 200)), Some((1024, 768)));
    assert_eq!(saved, WindowStateData { x: Some(300), y: Some(200), width: Some(1024), height: Some(768) });
    let plan = restore_window_state(&saved, &ms);
    assert_eq!(plan.position, PositionAction::MoveTo(300, 200));
    assert_eq!(plan.size, Some((1024, 768)));
    let unknown = window_state_data(None, None);
    assert_eq!(unknown, WindowStateData { x: None, y: None, width: None, height: None });
}

#[test]
fn state_file_lives_in_home() {
    let env = DirsEnv {
        platform: Platform::Windows,
        portable: true,
        exe_dir: Ok(AppPath::from_root("D:\\Clash")),
        data_dir: None,
        resource_dir: None,
        local_app_data: None,
        roaming_app_data: None,
        webview_override: None,
        temp_dir: AppPath::from_root("C:\\Temp"),
    };
    let p = window_state_path(&env).unwrap();
    assert_eq!(p.display(Platform::Windows), "D:\\Clash\\Data\\app\\window_state.json");
    let env = DirsEnv { portable: false, ..env };
    assert!(window_state_path(&env).is_none());
}
