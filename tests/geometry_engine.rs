use mxl_player_components::geometry::{
    anchored_offset, center_fit, clamp_zoom, compute, relative_zoom, wheel_zoom_delta, Rect, ViewGeometry,
};

#[test]
fn wide_video_fits_to_width() {
    assert_eq!(center_fit(1920, 1080, 800, 600), Rect { x: 0, y: 75, w: 800, h: 450 });
}

#[test]
fn tall_video_fits_to_height() {
    assert_eq!(center_fit(600, 800, 800, 600), Rect { x: 175, y: 0, w: 450, h: 600 });
}

#[test]
fn same_aspect_fills_viewport() {
    assert_eq!(center_fit(400, 300, 800, 600), Rect { x: 0, y: 0, w: 800, h: 600 });
}

#[test]
fn unzoomed_view_is_centered_fit() {
    let g = compute(1920, 1080, 800, 600, 1000);
    assert_eq!(
        g,
        ViewGeometry { scaled: Rect { x: 0, y: 0, w: 1920, h: 1080 }, fitted: Rect { x: 0, y: 75, w: 800, h: 450 } }
    );
    assert!(g.fitted.x + g.fitted.w <= 800 && g.fitted.y + g.fitted.h <= 600);
}

#[test]
fn zoomed_view_scales_the_fit() {
    let g = compute(1920, 1080, 800, 600, 2000);
    assert_eq!(g.scaled, Rect { x: 0, y: 0, w: 3840, h: 2160 });
    assert_eq!(g.fitted, Rect { x: 0, y: 0, w: 1600, h: 900 });
    let g = compute(1920, 1080, 800, 600, 1500);
    assert_eq!(g.fitted, Rect { x: 0, y: 0, w: 1200, h: 675 });
}

#[test]
fn slightly_zoomed_view_stays_centered() {
    // 800 x 450 at 1.2 is 960 x 540: wider than the viewport, lower than it.
    let g = compute(1920, 1080, 800, 600, 1200);
    assert_eq!(g.fitted, Rect { x: 0, y: 30, w: 960, h: 540 });
}

#[test]
fn zoom_is_clamped_before_computing() {
    assert_eq!(compute(1920, 1080, 800, 600, 500), compute(1920, 1080, 800, 600, 1000));
    assert_eq!(compute(1920, 1080, 800, 600, 20000), compute(1920, 1080, 800, 600, 10000));
    assert_eq!(compute(100, 100, 800, 600, 10000).fitted, Rect { x: 0, y: 0, w: 6000, h: 6000 });
}

#[test]
fn zoom_anchor_keeps_point_under_pointer() {
    let x = anchored_offset(0, 400, 1000, 2000);
    let y = anchored_offset(0, 300, 1000, 2000);
    assert_eq!((x, y), (400, 300));
    // The content point under the pointer, in unzoomed pixels, is unchanged.
    assert_eq!((x + 400) * 1000 / 2000, 400);
    assert_eq!((y + 300) * 1000 / 2000, 300);
}

#[test]
fn zoom_anchor_when_zooming_out() {
    assert_eq!(anchored_offset(400, 800, 2000, 1000), 0);
    assert_eq!(anchored_offset(10, 5, 1000, 1000), 10);
}

#[test]
fn wheel_scroll_up_zooms_in() {
    assert_eq!(wheel_zoom_delta(-1000), 200);
    assert_eq!(wheel_zoom_delta(1000), -200);
    assert_eq!(wheel_zoom_delta(0), 0);
}

#[test]
fn zoom_limits() {
    assert_eq!(clamp_zoom(0), 1000);
    assert_eq!(clamp_zoom(-5), 1000);
    assert_eq!(clamp_zoom(4000), 4000);
    assert_eq!(clamp_zoom(99999), 10000);
    assert_eq!(relative_zoom(1000, -200), 1000);
    assert_eq!(relative_zoom(1000, 200), 1200);
    assert_eq!(relative_zoom(9900, 500), 10000);
}
