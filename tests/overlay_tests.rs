use crosshair_overlay::config::{CrosshairConfig, CrosshairStyle};
use crosshair_overlay::overlay::{
    apply_pending, create_overlay_window, flip_enabled, creation_failed, creation_placement, get_config, paint, toggle_overlay,
    update_config, window_created, window_destroyed, OverlayError, OverlayState, Phase, Placement, WindowChange,
};
use crosshair_overlay::render::{draw_crosshair, Rotation};

fn active_state() -> OverlayState {
    let mut s = OverlayState::new();
    create_overlay_window(&mut s).unwrap();
    window_created(&mut s, 42).unwrap();
    s
}

#[test]
fn new_state_holds_default_config() {
    let s = OverlayState::new();
    assert_eq!(s.phase(), Phase::Uninitialized);
    assert_eq!(s.window(), None);
    assert_eq!(get_config(&s), CrosshairConfig::default());
}

#[test]
fn update_then_get_returns_same_config() {
    let mut s = OverlayState::new();
    let mut c = CrosshairConfig::default();
    c.size = 25;
    c.style = CrosshairStyle::Square;
    c.position_x = -40;
    c.rotation_millideg = 30000;
    let expected = c.duplicate();
    assert_eq!(update_config(&mut s, c), Ok(false));
    assert_eq!(get_config(&s), expected);
}

#[test]
fn update_with_window_asks_to_notify_owner() {
    let mut s = active_state();
    assert_eq!(update_config(&mut s, CrosshairConfig::default()), Ok(true));
}

#[test]
fn invalid_update_is_refused_and_changes_nothing() {
    let mut s = OverlayState::new();
    let mut c = CrosshairConfig::default();
    c.thickness = -2;
    assert_eq!(update_config(&mut s, c), Err(OverlayError::InvalidConfig));
    assert_eq!(get_config(&s), CrosshairConfig::default());
}

#[test]
fn toggle_changes_only_enabled() {
    let mut s = OverlayState::new();
    let mut c = CrosshairConfig::default();
    c.gap = 8;
    c.show_dot = false;
    update_config(&mut s, c).unwrap();
    let before = get_config(&s);
    assert!(!toggle_overlay(&mut s, false));
    let after = get_config(&s);
    assert!(!after.enabled);
    let mut restored = after.duplicate();
    restored.enabled = before.enabled;
    assert_eq!(restored, before);
    assert_eq!(s.phase(), Phase::Uninitialized);
}

#[test]
fn toggle_with_window_requests_repaint() {
    let mut s = active_state();
    assert!(toggle_overlay(&mut s, false));
    assert!(toggle_overlay(&mut s, true));
    assert!(get_config(&s).enabled);
}

#[test]
fn second_create_is_refused() {
    let mut s = OverlayState::new();
    assert_eq!(create_overlay_window(&mut s), Ok(()));
    assert_eq!(s.phase(), Phase::Creating);
    assert_eq!(create_overlay_window(&mut s), Err(OverlayError::AlreadyStarted));
    assert_eq!(s.phase(), Phase::Creating);
}

#[test]
fn lifecycle_runs_to_destroyed() {
    let mut s = active_state();
    assert_eq!(s.phase(), Phase::Active);
    assert_eq!(s.window(), Some(42));
    assert_eq!(window_destroyed(&mut s), Ok(()));
    assert_eq!(s.phase(), Phase::Destroyed);
    assert_eq!(s.window(), None);
    assert_eq!(create_overlay_window(&mut s), Err(OverlayError::AlreadyStarted));
}

#[test]
fn window_report_out_of_phase_is_refused() {
    let mut s = OverlayState::new();
    assert_eq!(window_created(&mut s, 1), Err(OverlayError::WrongPhase));
    assert_eq!(creation_failed(&mut s), Err(OverlayError::WrongPhase));
    assert_eq!(window_destroyed(&mut s), Err(OverlayError::WrongPhase));
    assert_eq!(s.phase(), Phase::Uninitialized);
}

#[test]
fn failed_creation_never_becomes_active() {
    let mut s = OverlayState::new();
    create_overlay_window(&mut s).unwrap();
    assert_eq!(creation_failed(&mut s), Ok(()));
    assert_eq!(s.phase(), Phase::Destroyed);
    assert_eq!(window_created(&mut s, 5), Err(OverlayError::WrongPhase));
}

#[test]
fn creation_placement_centers_default_box() {
    assert_eq!(creation_placement(1920, 1080), Placement { x: 933, y: 513, size: 54 });
}

#[test]
fn apply_after_creation_keeps_size_and_sets_alpha() {
    let mut s = active_state();
    assert_eq!(apply_pending(&mut s, 1920, 1080), Some(WindowChange { resize: None, alpha: 255 }));
    assert_eq!(apply_pending(&mut s, 1920, 1080), None);
}

#[test]
fn apply_resizes_when_box_changes() {
    let mut s = active_state();
    apply_pending(&mut s, 1920, 1080);
    let mut c = CrosshairConfig::default();
    c.size = 20;
    c.opacity_permille = 600;
    update_config(&mut s, c).unwrap();
    let change = apply_pending(&mut s, 1920, 1080);
    assert_eq!(change, Some(WindowChange { resize: Some(Placement { x: 923, y: 503, size: 74 }), alpha: 153 }));
}

#[test]
fn apply_without_resize_still_reapplies_alpha() {
    let mut s = active_state();
    apply_pending(&mut s, 800, 600);
    let mut c = CrosshairConfig::default();
    c.color = 0xFF00FF;
    c.opacity_permille = 200;
    update_config(&mut s, c).unwrap();
    assert_eq!(apply_pending(&mut s, 800, 600), Some(WindowChange { resize: None, alpha: 51 }));
}

#[test]
fn apply_before_window_does_nothing() {
    let mut s = OverlayState::new();
    update_config(&mut s, CrosshairConfig::default()).unwrap();
    assert_eq!(apply_pending(&mut s, 800, 600), None);
}

#[test]
fn paint_draws_around_offset_center() {
    let mut s = active_state();
    let mut c = CrosshairConfig::default();
    c.position_x = 3;
    c.position_y = -4;
    update_config(&mut s, c).unwrap();
    let ops = paint(&s, 54, 54, Rotation::identity());
    let expected = draw_crosshair(&get_config(&s), 30, 23, Rotation::identity());
    assert_eq!(ops, expected);
    assert_eq!(ops.len(), 9);
}

#[test]
fn paint_when_disabled_draws_nothing() {
    let mut s = active_state();
    toggle_overlay(&mut s, false);
    assert!(paint(&s, 54, 54, Rotation::identity()).is_empty());
}

#[test]
fn flip_inverts_only_enabled() {
    let mut s = active_state();
    let before = get_config(&s);
    assert!(!flip_enabled(&mut s));
    let mut after = get_config(&s);
    assert!(!after.enabled);
    after.enabled = true;
    assert_eq!(after, before);
    assert!(flip_enabled(&mut s));
    assert!(get_config(&s).enabled);
}

#[test]
fn update_back_to_default_geometry_resizes_to_fifty_four() {
    let mut s = active_state();
    let mut big = CrosshairConfig::default();
    big.size = 40;
    update_config(&mut s, big).unwrap();
    apply_pending(&mut s, 1920, 1080);
    let mut c = CrosshairConfig::default();
    c.size = 10;
    c.gap = 5;
    c.thickness = 2;
    update_config(&mut s, c).unwrap();
    let change = apply_pending(&mut s, 1920, 1080).unwrap();
    assert_eq!(change.resize, Some(Placement { x: 933, y: 513, size: 54 }));
}
