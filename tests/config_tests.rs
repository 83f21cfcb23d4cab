use crosshair_overlay::config::{CrosshairConfig, CrosshairLine, CrosshairStyle};

#[test]
fn default_config_values() {
    let c = CrosshairConfig::default();
    assert!(c.enabled);
    assert_eq!(c.size, 10);
    assert_eq!(c.thickness, 2);
    assert_eq!(c.gap, 5);
    assert_eq!(c.color, 0x00FF00);
    assert_eq!(c.opacity_permille, 1000);
    assert_eq!(c.style, CrosshairStyle::Classic);
    assert_eq!(c.t_length, 15);
    assert!(c.lines.is_empty());
    assert!(c.is_valid());
}

#[test]
fn bounding_box_of_size_ten_gap_five_thickness_two() {
    let mut c = CrosshairConfig::default();
    c.size = 10;
    c.gap = 5;
    c.thickness = 2;
    assert_eq!(c.bounding_box(), 54);
}

#[test]
fn bounding_box_of_larger_reticle() {
    let mut c = CrosshairConfig::default();
    c.size = 30;
    c.gap = 0;
    c.thickness = 5;
    assert_eq!(c.bounding_box(), 2 * 30 + 2 * 5 + 20);
}

#[test]
fn alpha_scales_opacity() {
    let mut c = CrosshairConfig::default();
    assert_eq!(c.alpha(), 255);
    c.opacity_permille = 500;
    assert_eq!(c.alpha(), 127);
    c.opacity_permille = 0;
    assert_eq!(c.alpha(), 0);
}

#[test]
fn negative_size_is_rejected() {
    let mut c = CrosshairConfig::default();
    c.size = -1;
    assert!(!c.is_valid());
}

#[test]
fn color_wider_than_24_bits_is_rejected() {
    let mut c = CrosshairConfig::default();
    c.outline_color = 0x0100_0000;
    assert!(!c.is_valid());
}

#[test]
fn negative_opacity_is_rejected() {
    let mut c = CrosshairConfig::default();
    c.opacity_permille = -1;
    assert!(!c.is_valid());
}

#[test]
fn opacity_above_full_is_rejected() {
    let mut c = CrosshairConfig::default();
    c.opacity_permille = 1001;
    assert!(!c.is_valid());
}

#[test]
fn out_of_range_custom_line_is_rejected() {
    let mut c = CrosshairConfig::default();
    c.lines.push(CrosshairLine { start_x: 0, start_y: 0, end_x: 10001, end_y: 0, thickness: 1, color: 0 });
    assert!(!c.is_valid());
    c.lines[0].end_x = 10000;
    assert!(c.is_valid());
}

#[test]
fn duplicate_copies_every_field() {
    let mut c = CrosshairConfig::default();
    c.style = CrosshairStyle::Custom;
    c.rotation_millideg = 45000;
    c.lines.push(CrosshairLine { start_x: -3, start_y: 4, end_x: 5, end_y: -6, thickness: 2, color: 0xABCDEF });
    let d = c.duplicate();
    assert_eq!(d, c);
}
