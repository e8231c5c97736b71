use mxl_player_components::playback::{PlaybackState, PlayerBuilder};
use mxl_player_components::geometry::Rect;
use mxl_player_components::session::{
    Cursor, PlayerComponentModel, PlayerComponentOutput, StateChangeResponse, VideoViewData, ZoomChange,
};

fn zoom(s: &mut PlayerComponentModel, z: Option<i64>) -> ZoomChange {
    s.set_zoom(z, 1920, 1080, 800, 600, (0, 0), None)
}

fn session() -> PlayerComponentModel {
    PlayerComponentModel::new(PlayerBuilder::new(), true)
}

#[test]
fn drag_at_zoom_one_keeps_default_cursor() {
    let mut s = session();
    s.drag_begin();
    assert_eq!(s.drag_position, Some((0, 0)));
    assert_eq!(s.video_view.cursor, None);
    s.drag_end();
    assert_eq!(s.video_view.cursor, None);
    assert_eq!(s.drag_position, None);
}

#[test]
fn drag_when_zoomed_grabs() {
    let mut s = session();
    zoom(&mut s, Some(2000));
    assert_eq!(s.video_view.cursor, Some(Cursor::Grab));
    s.drag_begin();
    assert_eq!(s.video_view.cursor, Some(Cursor::Grabbing));
    s.drag_end();
    assert_eq!(s.video_view.cursor, Some(Cursor::Grab));
}

#[test]
fn drag_updates_are_incremental() {
    let mut s = session();
    assert_eq!(s.drag_update(3, 3), None);
    s.drag_begin();
    assert_eq!(s.drag_update(10, 5), Some((-10, -5)));
    assert_eq!(s.drag_update(15, 5), Some((-5, 0)));
    assert_eq!(s.drag_position, Some((15, 5)));
}

#[test]
fn zoom_is_limited() {
    let mut s = session();
    assert_eq!(zoom(&mut s, Some(20000)).previous_zoom, 1000);
    assert_eq!(s.video_view.zoom_factor, 10000);
    assert_eq!(zoom(&mut s, None).previous_zoom, 10000);
    assert_eq!(s.video_view.zoom_factor, 1000);
    assert_eq!(s.video_view.cursor, None);
    s.set_zoom_relative(-200, 1920, 1080, 800, 600, (0, 0), None);
    assert_eq!(s.video_view.zoom_factor, 1000);
    s.set_zoom_relative(200, 1920, 1080, 800, 600, (0, 0), None);
    assert_eq!(s.video_view.zoom_factor, 1200);
}

#[test]
fn dimension_changes_refit_the_view() {
    let mut s = session();
    zoom(&mut s, Some(3000));
    assert_eq!(s.video_dimensions_changed(1920, 1080), Some(1000));
    zoom(&mut s, Some(1000));
    assert_eq!(s.video_view.zoom_factor, 1000);
    zoom(&mut s, Some(2000));
    assert_eq!(s.video_dimensions_changed(1920, 1080), None);
    assert_eq!(s.video_dimensions_changed(0, 720), None);
    assert_eq!(s.video_dimensions_changed(1280, 720), Some(2000));
    assert_eq!(s.video_view.zoom_factor, 2000);
    assert_eq!(s.video_view.video_dimensions, Some((1280, 720)));
}

#[test]
fn stop_and_error_end_seeking() {
    let mut s = session();
    s.seek_started();
    let r = s.state_changed(Some(PlaybackState::Playing), PlaybackState::Buffering);
    assert_eq!(
        r,
        StateChangeResponse {
            output: PlayerComponentOutput::StateChanged(Some(PlaybackState::Playing), PlaybackState::Buffering),
            redraw_overlay: true,
        }
    );
    assert!(s.seeking);
    assert!(s.seeking_overlay_visible());
    s.state_changed(Some(PlaybackState::Buffering), PlaybackState::Error);
    assert!(!s.seeking);
    s.seek_started();
    assert_eq!(s.seek_done(), PlayerComponentOutput::SeekDone);
    assert!(!s.seeking);
}

#[test]
fn drawing_overlay_needs_loaded_media() {
    let mut s = session();
    s.set_overlay_visible(true);
    assert!(!s.drawing_overlay_visible());
    s.state_changed(Some(PlaybackState::Stopped), PlaybackState::Playing);
    assert!(s.drawing_overlay_visible());
    assert!(!s.seeking_overlay_visible());
}

#[test]
fn offsets_survive_for_rebuilds() {
    let mut s = session();
    s.set_audio_video_offset(250);
    s.set_subtitle_video_offset(-30);
    assert_eq!(s.player_builder, PlayerBuilder { seek_accurate: false, audio_offset: 250, subtitle_offset: -30 });
}

#[test]
fn view_update_stores_geometry() {
    let mut s = session();
    s.update_view(Some(2000), 1920, 1080, 800, 600);
    let v = &s.video_view;
    assert_eq!(v.zoom_factor, 2000);
    assert_eq!(v.view_rect, Some(Rect { x: 0, y: 0, w: 800, h: 600 }));
    assert_eq!(v.scaled_paintable_rect, Some(Rect { x: 0, y: 0, w: 3840, h: 2160 }));
    assert_eq!(v.fitted_paintable_rect, Some(Rect { x: 0, y: 0, w: 1600, h: 900 }));
    s.update_view(None, 1920, 1080, 800, 600);
    assert_eq!(s.video_view.zoom_factor, 2000);
    s.update_view(Some(0), 1920, 1080, 800, 600);
    assert_eq!(s.video_view.fitted_paintable_rect, Some(Rect { x: 0, y: 75, w: 800, h: 450 }));
}

#[test]
fn custom_cursor_and_drawing_area() {
    let mut v = VideoViewData::new();
    v.set_drawing_area(640, 480);
    assert_eq!(v.drawing_area, Some(Rect { x: 0, y: 0, w: 640, h: 480 }));
    assert_eq!(v.set_custom_cursor_from_name(Some("crosshair".to_string())), Some("crosshair".to_string()));
    assert_eq!(v.custom_cursor, Some("crosshair".to_string()));
    assert_eq!(v.set_custom_cursor_from_name(None), None);
    assert_eq!(v.cursor, None);
}

#[test]
fn picture_size_request_only_when_zoomed() {
    let mut s = session();
    s.update_view(None, 1920, 1080, 800, 600);
    assert_eq!(s.video_view.size_request(), None);
    s.update_view(Some(2000), 1920, 1080, 800, 600);
    assert_eq!(s.video_view.size_request(), Some((1600, 900)));
}

#[test]
fn zoom_keeps_content_under_pointer() {
    let mut s = session();
    let r = s.set_zoom(Some(2000), 1920, 1080, 800, 600, (0, 0), Some((400, 300)));
    assert_eq!(r, ZoomChange { previous_zoom: 1000, scroll_x: 400, scroll_y: 300, size_request: Some((1600, 900)) });
    // The content point under the pointer, in unzoomed pixels, is unchanged.
    assert_eq!((r.scroll_x + 400) * 1000 / 2000, (0 + 400) * 1000 / 1000);
    assert_eq!((r.scroll_y + 300) * 1000 / 2000, (0 + 300) * 1000 / 1000);
    assert_eq!(s.video_view.fitted_paintable_rect, Some(Rect { x: 0, y: 0, w: 1600, h: 900 }));
    assert_eq!(s.video_view.cursor, Some(Cursor::Grab));
}

#[test]
fn zoom_without_pointer_or_back_to_one_keeps_scroll() {
    let mut s = session();
    let r = s.set_zoom(Some(2000), 1920, 1080, 800, 600, (50, 60), None);
    assert_eq!((r.scroll_x, r.scroll_y), (50, 60));
    let r = s.set_zoom(None, 1920, 1080, 800, 600, (50, 60), Some((400, 300)));
    assert_eq!(r, ZoomChange { previous_zoom: 2000, scroll_x: 50, scroll_y: 60, size_request: None });
    assert_eq!(s.video_view.fitted_paintable_rect, Some(Rect { x: 0, y: 75, w: 800, h: 450 }));
    assert_eq!(s.video_view.cursor, None);
}

#[test]
fn wheel_zoom_is_anchored_too() {
    let mut s = session();
    let r = s.set_zoom_relative(1000, 1920, 1080, 800, 600, (0, 0), Some((400, 300)));
    assert_eq!((r.scroll_x, r.scroll_y), (400, 300));
    assert_eq!(s.video_view.zoom_factor, 2000);
}
