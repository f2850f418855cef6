//! Camera framing scenarios.

use platformer_core::camera::camera_fit_inside_current_level;
use platformer_core::camera::camera_level_ok;
use platformer_core::camera::CameraFrame;

#[test]
fn exact_ratio_level_pins_camera_to_level() {
    // 320 by 180 pixels is exactly 16:9: no slack to pan on either axis
    for &px in [0i64, 5_000, 16_000, 32_000].iter() {
        let frame = camera_fit_inside_current_level(px, 700, 0, 0, 320, 180);
        assert_eq!(
            frame,
            CameraFrame { top: 18_000, right: 32_000, bottom: 0, left: 0, x: 0, y: 0 }
        );
    }
}

#[test]
fn exact_ratio_level_follows_level_translation() {
    let frame = camera_fit_inside_current_level(9_999, 700, 1_000, 2_000, 320, 180);
    assert_eq!(frame.x, 1_000);
    assert_eq!(frame.y, 2_000);
    assert_eq!(frame.top, 18_000);
    assert_eq!(frame.right, 32_000);
}

#[test]
fn wide_level_clamps_left_edge_to_zero() {
    // 640 by 180 is wider than 16:9; centering on a player at the left
    // edge would want a negative translation, which clamps to zero
    let frame = camera_fit_inside_current_level(0, 700, 0, 0, 640, 180);
    assert_eq!(
        frame,
        CameraFrame { top: 18_000, right: 32_000, bottom: 0, left: 0, x: 0, y: 0 }
    );
}

#[test]
fn wide_level_centers_on_player_inside_slack() {
    let frame = camera_fit_inside_current_level(20_000, 700, 0, 0, 640, 180);
    // player at 200 px, half a 320 px window to the left of it
    assert_eq!(frame.x, 20_000 - 16_000);
    assert_eq!(frame.y, 0);
}

#[test]
fn wide_level_clamps_right_edge() {
    let frame = camera_fit_inside_current_level(64_000, 700, 0, 0, 640, 180);
    // window cannot pass level width minus window width
    assert_eq!(frame.x, 64_000 - 32_000);
}

#[test]
fn tall_level_pans_vertically_only() {
    // 320 by 360 is taller than 16:9: full width shown, vertical pan
    let low = camera_fit_inside_current_level(9_000, 0, 0, 0, 320, 360);
    assert_eq!(low.top, 18_000);
    assert_eq!(low.right, 32_000);
    assert_eq!(low.x, 0);
    assert_eq!(low.y, 0);
    let mid = camera_fit_inside_current_level(9_000, 15_000, 0, 0, 320, 360);
    assert_eq!(mid.y, 15_000 - 9_000);
    let high = camera_fit_inside_current_level(9_000, 36_000, 0, 0, 320, 360);
    assert_eq!(high.y, 36_000 - 18_000);
}

#[test]
fn extents_round_to_aspect_ratio_steps() {
    // a 200 px tall wide level rounds its height up to 207, a multiple of 9
    let frame = camera_fit_inside_current_level(0, 0, 0, 0, 1_000, 200);
    assert_eq!(frame.top, 23 * 900);
    assert_eq!(frame.right, 23 * 1_600);
    // a 330 px wide tall level rounds its width up to 336, a multiple of 16
    let frame = camera_fit_inside_current_level(0, 0, 0, 0, 330, 400);
    assert_eq!(frame.right, 21 * 1_600);
    assert_eq!(frame.top, 21 * 900);
}

#[test]
fn degenerate_levels_are_rejected() {
    assert!(camera_level_ok(640, 180));
    assert!(camera_level_ok(320, 180));
    assert!(camera_level_ok(320, 360));
    assert!(!camera_level_ok(0, 180));
    assert!(!camera_level_ok(640, 0));
    // 25 by 14 is wider than 16:9, but its height rounds up to an
    // 18-pixel window whose width exceeds the level: no room to clamp
    assert!(!camera_level_ok(25, 14));
}

#[test]
fn wide_level_translation_adds_level_offset() {
    let frame = camera_fit_inside_current_level(20_000 + 500, 700, 500, -300, 640, 180);
    assert_eq!(frame.x, 500 + 4_000);
    assert_eq!(frame.y, -300);
}
