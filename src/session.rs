use vstd::prelude::*;
use crate::geometry::{
    anchored, anchored_offset, clamp_zoom, clamped_zoom, compute, view_geometry, Rect, ZOOM_MAX, ZOOM_MIN, ZOOM_UNIT,
};
use crate::playback::{PlaybackState, PlayerBuilder};

verus! {

/// The pointer shape over the video.
#[derive(Debug, Clone, Copy, PartialEq, Eq, Structural)]
pub enum Cursor {
    /// Zoomed in: the video can be dragged.
    Grab,
    /// The video is being dragged.
    Grabbing,
}

/// The geometry of the video view: the areas last measured, the video size the
/// backend reported, the rectangles derived from them, the zoom factor and the pointer shape.
#[derive(Debug, Clone, PartialEq, Eq)]
pub struct VideoViewData {
    pub drawing_area: Option<Rect>,
    pub view_rect: Option<Rect>,
    pub video_dimensions: Option<(u32, u32)>,
    pub scaled_paintable_rect: Option<Rect>,
    pub fitted_paintable_rect: Option<Rect>,
    /// The zoom factor, in thousandths.
    pub zoom_factor: u64,
    /// The pointer shape chosen for the view; `None` for the default one.
    pub cursor: Option<Cursor>,
    /// A pointer shape set by the application over the view's own, by name.
    pub custom_cursor: Option<String>,
}

impl VideoViewData {
    /// Nothing measured yet, at a zoom factor of 1.0.
    pub fn new() -> (r: VideoViewData)
        ensures
            r.drawing_area.is_none(),
            r.view_rect.is_none(),
            r.video_dimensions.is_none(),
            r.scaled_paintable_rect.is_none(),
            r.fitted_paintable_rect.is_none(),
            r.zoom_factor == ZOOM_UNIT,
            r.cursor.is_none(),
            r.custom_cursor.is_none(),
    {
        VideoViewData {
            drawing_area: None,
            view_rect: None,
            video_dimensions: None,
            scaled_paintable_rect: None,
            fitted_paintable_rect: None,
            zoom_factor: ZOOM_UNIT,
            cursor: None,
            custom_cursor: None,
        }
    }

    /// The size to request for the video picture: none at a zoom factor of 1.0, where
    /// the picture simply fills the view, else the fitted rectangle's size.
    pub fn size_request(&self) -> (r: Option<(u64, u64)>)
        ensures
            self.zoom_factor == ZOOM_UNIT ==> r is None,
            self.zoom_factor != ZOOM_UNIT ==> r == (match self.fitted_paintable_rect {
                Some(f) => Some((f.w, f.h)),
                None => None,
            }),
    {
        if self.zoom_factor == ZOOM_UNIT {
            return None;
        }
        match self.fitted_paintable_rect {
            Some(f) => Some((f.w, f.h)),
            None => None,
        }
    }

    /// Records the size of the drawing area.
    pub fn set_drawing_area(&mut self, w: u32, h: u32)
        ensures
            final(self).drawing_area == Some(Rect { x: 0, y: 0, w: w as u64, h: h as u64 }),
            final(self).zoom_factor == old(self).zoom_factor,
            final(self).cursor == old(self).cursor,
            final(self).video_dimensions == old(self).video_dimensions,
    {
        self.drawing_area = Some(Rect { x: 0, y: 0, w: w as u64, h: h as u64 });
    }

    /// Sets the pointer shape the application asks for, or with `None` goes back to
    /// the view's own; returns the shape to show by name, if it is a custom one.
    pub fn set_custom_cursor_from_name(&mut self, cursor_name: Option<String>) -> (r: Option<String>)
        ensures
            final(self).custom_cursor == cursor_name,
            r == cursor_name,
            final(self).cursor == old(self).cursor,
            final(self).zoom_factor == old(self).zoom_factor,
            final(self).video_dimensions == old(self).video_dimensions,
    {
        let r = match &cursor_name {
            Some(n) => Some(n.clone()),
            None => None,
        };
        self.custom_cursor = cursor_name;
        r
    }

    /// Takes a new zoom factor, if given (limited to 1.0 to 10.0), and computes the
    /// rectangles of a `p_width` x `p_height` video in a `view_w` x `view_h` viewport.
    pub fn update(&mut self, new_zoom_factor: Option<i64>, p_width: u32, p_height: u32, view_w: u32, view_h: u32)
        requires
            ZOOM_MIN <= old(self).zoom_factor <= ZOOM_MAX,
        ensures
            final(self).zoom_factor == (match new_zoom_factor {
                Some(z) => clamped_zoom(z as int) as u64,
                None => old(self).zoom_factor,
            }),
            ZOOM_MIN <= final(self).zoom_factor <= ZOOM_MAX,
            final(self).view_rect == Some(Rect { x: 0, y: 0, w: view_w as u64, h: view_h as u64 }),
            ({
                let g = view_geometry(
                    p_width as int,
                    p_height as int,
                    view_w as int,
                    view_h as int,
                    final(self).zoom_factor as int,
                );
                &&& final(self).scaled_paintable_rect == Some(g.scaled)
                &&& final(self).fitted_paintable_rect == Some(g.fitted)
            }),
            final(self).cursor == old(self).cursor,
            final(self).video_dimensions == old(self).video_dimensions,
            final(self).drawing_area == old(self).drawing_area,
    {
        if let Some(z) = new_zoom_factor {
            self.zoom_factor = clamp_zoom(z);
        }
        let g = compute(p_width, p_height, view_w, view_h, self.zoom_factor as i64);
        self.scaled_paintable_rect = Some(g.scaled);
        self.fitted_paintable_rect = Some(g.fitted);
        self.view_rect = Some(Rect { x: 0, y: 0, w: view_w as u64, h: view_h as u64 });
    }
}

/// What the view passes on to the application.
#[derive(Debug, Clone, Copy, PartialEq, Eq, Structural)]
pub enum PlayerComponentOutput {
    /// The engine's state went from the first value to the second.
    StateChanged(Option<PlaybackState>, PlaybackState),
    SeekDone,
}

/// The response to a change of state: the notification to pass on, and whether to
/// redraw the overlay.
#[derive(Debug, Clone, Copy, PartialEq, Eq, Structural)]
pub struct StateChangeResponse {
    pub output: PlayerComponentOutput,
    pub redraw_overlay: bool,
}

/// The result of a zoom change: the factor before it, the new scroll offsets, and
/// the size to request for the picture (also the scroll range), none at 1.0.
#[derive(Debug, Clone, Copy, PartialEq, Eq)]
pub struct ZoomChange {
    pub previous_zoom: u64,
    pub scroll_x: i64,
    pub scroll_y: i64,
    pub size_request: Option<(u64, u64)>,
}

/// `new` is `old` after zooming to `z`: factor and pointer shape set, the view fitted
/// again, and the scroll offsets moved around the pointer (when zoomed in and the
/// pointer's position is known) or kept.
pub open spec fn zoom_applied(
    old: PlayerComponentModel,
    new: PlayerComponentModel,
    z: int,
    p_width: u32,
    p_height: u32,
    view_w: u32,
    view_h: u32,
    scroll: (i64, i64),
    pointer: Option<(u32, u32)>,
    r: ZoomChange,
) -> bool {
    let g = view_geometry(p_width as int, p_height as int, view_w as int, view_h as int, z);
    &&& new.wf()
    &&& new.video_view.zoom_factor == z
    &&& r.previous_zoom == old.video_view.zoom_factor
    &&& new.video_view.cursor == (if z == ZOOM_UNIT {
        None
    } else {
        Some(Cursor::Grab)
    })
    &&& new.video_view.scaled_paintable_rect == Some(g.scaled)
    &&& new.video_view.fitted_paintable_rect == Some(g.fitted)
    &&& new.video_view.view_rect == Some(Rect { x: 0, y: 0, w: view_w as u64, h: view_h as u64 })
    &&& r.size_request == (if z == ZOOM_UNIT {
        None
    } else {
        Some((g.fitted.w, g.fitted.h))
    })
    &&& z != ZOOM_UNIT ==> (pointer matches Some((px, py)) ==> {
        &&& r.scroll_x == anchored(scroll.0 as int, px as int, old.video_view.zoom_factor as int, z)
        &&& r.scroll_y == anchored(scroll.1 as int, py as int, old.video_view.zoom_factor as int, z)
    })
    &&& !(z != ZOOM_UNIT && pointer is Some) ==> r.scroll_x == scroll.0 && r.scroll_y == scroll.1
    &&& new.video_view.video_dimensions == old.video_view.video_dimensions
    &&& new.drag_position == old.drag_position
    &&& new.mouse_position == old.mouse_position
    &&& new.playback_state == old.playback_state
    &&& new.seeking == old.seeking
    &&& new.player_builder == old.player_builder
}

/// The state of the video view and of the user's gestures on it.
#[derive(Debug)]
pub struct PlayerComponentModel {
    pub player_builder: PlayerBuilder,
    pub playback_state: PlaybackState,
    pub show_seeking_overlay: bool,
    pub seeking: bool,
    pub show_drawing_overlay: bool,
    /// The last drag sample, relative to where the drag began; `None` while not dragging.
    pub drag_position: Option<(i32, i32)>,
    /// The last known pointer position over the video.
    pub mouse_position: Option<(i32, i32)>,
    /// The view's geometry, shared with the drawing callback.
    pub video_view: VideoViewData,
}

impl PlayerComponentModel {
    /// The zoom factor lies between 1.0 and 10.0.
    pub open spec fn wf(&self) -> bool {
        ZOOM_MIN <= self.video_view.zoom_factor <= ZOOM_MAX
    }

    /// Fits the video again at a new zoom factor, if given, as `VideoViewData::update` does.
    pub fn update_view(&mut self, new_zoom_factor: Option<i64>, p_width: u32, p_height: u32, view_w: u32, view_h: u32)
        requires
            old(self).wf(),
        ensures
            final(self).wf(),
            final(self).playback_state == old(self).playback_state,
            final(self).drag_position == old(self).drag_position,
            final(self).player_builder == old(self).player_builder,
            final(self).video_view.zoom_factor == (match new_zoom_factor {
                Some(z) => clamped_zoom(z as int) as u64,
                None => old(self).video_view.zoom_factor,
            }),
            ({
                let g = view_geometry(
                    p_width as int,
                    p_height as int,
                    view_w as int,
                    view_h as int,
                    final(self).video_view.zoom_factor as int,
                );
                &&& final(self).video_view.scaled_paintable_rect == Some(g.scaled)
                &&& final(self).video_view.fitted_paintable_rect == Some(g.fitted)
            }),
    {
        self.video_view.update(new_zoom_factor, p_width, p_height, view_w, view_h);
    }

    /// A stopped view at a zoom factor of 1.0, with the given engine settings.
    pub fn new(player_builder: PlayerBuilder, show_seeking_overlay: bool) -> (r: PlayerComponentModel)
        ensures
            r.wf(),
            r.player_builder == player_builder,
            r.playback_state == PlaybackState::Stopped,
            r.show_seeking_overlay == show_seeking_overlay,
            !r.seeking,
            !r.show_drawing_overlay,
            r.drag_position.is_none(),
            r.mouse_position.is_none(),
            r.video_view.zoom_factor == ZOOM_UNIT,
            r.video_view.video_dimensions.is_none(),
            r.video_view.cursor.is_none(),
    {
        PlayerComponentModel {
            player_builder,
            playback_state: PlaybackState::Stopped,
            show_seeking_overlay,
            seeking: false,
            show_drawing_overlay: false,
            drag_position: None,
            mouse_position: None,
            video_view: VideoViewData::new(),
        }
    }

    /// Whether the drawing overlay shows: when asked for and while media is loaded.
    pub fn drawing_overlay_visible(&self) -> (r: bool)
        ensures
            r == (self.show_drawing_overlay && self.playback_state != PlaybackState::Stopped
                && self.playback_state != PlaybackState::Error),
    {
        self.show_drawing_overlay && self.playback_state != PlaybackState::Stopped
            && self.playback_state != PlaybackState::Error
    }

    /// Whether the seeking/buffering overlay shows: when asked for and while buffering.
    pub fn seeking_overlay_visible(&self) -> (r: bool)
        ensures
            r == (self.show_seeking_overlay && self.playback_state == PlaybackState::Buffering),
    {
        self.show_seeking_overlay && self.playback_state == PlaybackState::Buffering
    }

    /// A drag begins: samples are taken relative to its start, and the pointer shows
    /// a grabbing hand when zoomed in.
    pub fn drag_begin(&mut self)
        ensures
            final(self).drag_position == Some((0i32, 0i32)),
            final(self).video_view.cursor == (if old(self).video_view.zoom_factor != ZOOM_UNIT {
                Some(Cursor::Grabbing)
            } else {
                old(self).video_view.cursor
            }),
            final(self).video_view.zoom_factor == old(self).video_view.zoom_factor,
            final(self).playback_state == old(self).playback_state,
            final(self).player_builder == old(self).player_builder,
    {
        self.drag_position = Some((0, 0));
        if self.video_view.zoom_factor != ZOOM_UNIT {
            self.video_view.cursor = Some(Cursor::Grabbing);
        }
    }

    /// A drag moves to `(x, y)`: returns how far to scroll, measured from the previous
    /// sample, and keeps `(x, y)` as the new sample. Outside a drag nothing happens.
    pub fn drag_update(&mut self, x: i32, y: i32) -> (r: Option<(i64, i64)>)
        ensures
            old(self).drag_position matches Some((ox, oy)) ==> {
                &&& r matches Some((dx, dy)) && dx == ox - x && dy == oy - y
                &&& final(self).drag_position == Some((x, y))
            },
            old(self).drag_position is None ==> r is None && final(self).drag_position is None,
            final(self).video_view.zoom_factor == old(self).video_view.zoom_factor,
            final(self).video_view.cursor == old(self).video_view.cursor,
            final(self).playback_state == old(self).playback_state,
            final(self).player_builder == old(self).player_builder,
    {
        match self.drag_position {
            Some((ox, oy)) => {
                self.drag_position = Some((x, y));
                Some((ox as i64 - x as i64, oy as i64 - y as i64))
            },
            None => None,
        }
    }

    /// A drag ends: a custom pointer goes back to the open hand when zoomed in, and to
    /// the default one otherwise.
    pub fn drag_end(&mut self)
        ensures
            final(self).drag_position is None,
            final(self).video_view.cursor == (if old(self).video_view.cursor is None {
                None
            } else if old(self).video_view.zoom_factor != ZOOM_UNIT {
                Some(Cursor::Grab)
            } else {
                None
            }),
            final(self).video_view.zoom_factor == old(self).video_view.zoom_factor,
            final(self).playback_state == old(self).playback_state,
            final(self).player_builder == old(self).player_builder,
    {
        self.drag_position = None;
        if self.video_view.cursor.is_some() {
            if self.video_view.zoom_factor != ZOOM_UNIT {
                self.video_view.cursor = Some(Cursor::Grab);
            } else {
                self.video_view.cursor = None;
            }
        }
    }

    /// Records the pointer position, the anchor of the next zoom change.
    pub fn motion_detected(&mut self, x: i32, y: i32)
        ensures
            final(self).mouse_position == Some((x, y)),
            final(self).video_view.zoom_factor == old(self).video_view.zoom_factor,
            final(self).video_view.cursor == old(self).video_view.cursor,
            final(self).drag_position == old(self).drag_position,
            final(self).video_view.video_dimensions == old(self).video_view.video_dimensions,
            final(self).playback_state == old(self).playback_state,
            final(self).player_builder == old(self).player_builder,
    {
        self.mouse_position = Some((x, y));
    }

    /// Sets the zoom factor (1.0 where none is given, limited to 1.0 to 10.0) and the
    /// pointer shape that goes with it, fits a `p_width` x `p_height` video in the
    /// `view_w` x `view_h` viewport again at that factor, and moves the scroll
    /// offsets `scroll` so that the content under `pointer` (its position on the
    /// picture, if known) stays in place. At 1.0, or without a pointer position, the
    /// offsets stay as they are.
    pub fn set_zoom(
        &mut self,
        zoom: Option<i64>,
        p_width: u32,
        p_height: u32,
        view_w: u32,
        view_h: u32,
        scroll: (i64, i64),
        pointer: Option<(u32, u32)>,
    ) -> (r: ZoomChange)
        requires
            old(self).wf(),
            i64::MIN / 2 <= scroll.0 <= i64::MAX / 2,
            i64::MIN / 2 <= scroll.1 <= i64::MAX / 2,
        ensures
            zoom_applied(
                *old(self),
                *final(self),
                clamped_zoom(
                    match zoom {
                        Some(z) => z as int,
                        None => ZOOM_UNIT as int,
                    },
                ),
                p_width,
                p_height,
                view_w,
                view_h,
                scroll,
                pointer,
                r,
            ),
    {
        let previous = self.video_view.zoom_factor;
        let z = match zoom {
            Some(z) => clamp_zoom(z),
            None => ZOOM_UNIT,
        };
        self.video_view.update(Some(z as i64), p_width, p_height, view_w, view_h);
        self.video_view.cursor = if z == ZOOM_UNIT {
            None
        } else {
            Some(Cursor::Grab)
        };
        let (scroll_x, scroll_y) = if z != ZOOM_UNIT {
            match pointer {
                Some((px, py)) => (
                    anchored_offset(scroll.0, px, previous, z),
                    anchored_offset(scroll.1, py, previous, z),
                ),
                None => scroll,
            }
        } else {
            scroll
        };
        let size_request = self.video_view.size_request();
        ZoomChange { previous_zoom: previous, scroll_x, scroll_y, size_request }
    }

    /// Adds `delta` (in thousandths) to the zoom factor, then proceeds as `set_zoom`.
    pub fn set_zoom_relative(
        &mut self,
        delta: i64,
        p_width: u32,
        p_height: u32,
        view_w: u32,
        view_h: u32,
        scroll: (i64, i64),
        pointer: Option<(u32, u32)>,
    ) -> (r: ZoomChange)
        requires
            old(self).wf(),
            -(i64::MAX / 2) <= delta <= i64::MAX / 2,
            i64::MIN / 2 <= scroll.0 <= i64::MAX / 2,
            i64::MIN / 2 <= scroll.1 <= i64::MAX / 2,
        ensures
            zoom_applied(
                *old(self),
                *final(self),
                clamped_zoom(old(self).video_view.zoom_factor + delta),
                p_width,
                p_height,
                view_w,
                view_h,
                scroll,
                pointer,
                r,
            ),
    {
        let z = self.video_view.zoom_factor as i64 + delta;
        self.set_zoom(Some(z), p_width, p_height, view_w, view_h, scroll, pointer)
    }

    /// The backend reports a video size. A new, non-empty size is recorded, and the
    /// zoom factor to fit the view again at is returned (apply it with `set_zoom`):
    /// 1.0 for the first size reported, the current factor after that.
    pub fn video_dimensions_changed(&mut self, width: u32, height: u32) -> (r: Option<i64>)
        requires
            old(self).wf(),
        ensures
            final(self).wf(),
            width != 0 && height != 0 && old(self).video_view.video_dimensions != Some((width, height)) ==> {
                &&& final(self).video_view.video_dimensions == Some((width, height))
                &&& r == Some(
                    if old(self).video_view.video_dimensions is None {
                        ZOOM_UNIT as i64
                    } else {
                        old(self).video_view.zoom_factor as i64
                    },
                )
            },
            !(width != 0 && height != 0 && old(self).video_view.video_dimensions != Some((width, height)))
                ==> r is None && final(self).video_view.video_dimensions == old(self).video_view.video_dimensions,
            final(self).video_view.zoom_factor == old(self).video_view.zoom_factor,
            final(self).video_view.cursor == old(self).video_view.cursor,
            final(self).playback_state == old(self).playback_state,
            final(self).player_builder == old(self).player_builder,
    {
        if width == 0 || height == 0 {
            return None;
        }
        let unchanged = match self.video_view.video_dimensions {
            Some((w, h)) => w == width && h == height,
            None => false,
        };
        if unchanged {
            return None;
        }
        let z = if self.video_view.video_dimensions.is_none() {
            ZOOM_UNIT as i64
        } else {
            self.video_view.zoom_factor as i64
        };
        self.video_view.video_dimensions = Some((width, height));
        Some(z)
    }

    /// The engine reports a change of state: it is kept, leaving for stopped or error
    /// ends any seek, and the change is passed on unchanged with a request to redraw
    /// the overlay.
    pub fn state_changed(&mut self, old_state: Option<PlaybackState>, new_state: PlaybackState) -> (r:
        StateChangeResponse)
        ensures
            final(self).playback_state == new_state,
            final(self).seeking == (old(self).seeking && new_state != PlaybackState::Stopped
                && new_state != PlaybackState::Error),
            final(self).video_view == old(self).video_view,
            final(self).player_builder == old(self).player_builder,
            r.output == PlayerComponentOutput::StateChanged(old_state, new_state),
            r.redraw_overlay,
    {
        self.playback_state = new_state;
        if new_state == PlaybackState::Stopped || new_state == PlaybackState::Error {
            self.seeking = false;
        }
        StateChangeResponse {
            output: PlayerComponentOutput::StateChanged(old_state, new_state),
            redraw_overlay: true,
        }
    }

    /// A seek was asked for; it lasts until the engine reports it done.
    pub fn seek_started(&mut self)
        ensures
            final(self).seeking,
            final(self).playback_state == old(self).playback_state,
            final(self).video_view.zoom_factor == old(self).video_view.zoom_factor,
            final(self).player_builder == old(self).player_builder,
    {
        self.seeking = true;
    }

    /// The engine finished a seek; this is passed on.
    pub fn seek_done(&mut self) -> (r: PlayerComponentOutput)
        ensures
            !final(self).seeking,
            r == PlayerComponentOutput::SeekDone,
            final(self).playback_state == old(self).playback_state,
            final(self).video_view.zoom_factor == old(self).video_view.zoom_factor,
            final(self).player_builder == old(self).player_builder,
    {
        self.seeking = false;
        PlayerComponentOutput::SeekDone
    }

    /// Shows or hides the drawing overlay.
    pub fn set_overlay_visible(&mut self, visible: bool)
        ensures
            final(self).show_drawing_overlay == visible,
            final(self).playback_state == old(self).playback_state,
            final(self).video_view.zoom_factor == old(self).video_view.zoom_factor,
            final(self).player_builder == old(self).player_builder,
    {
        self.show_drawing_overlay = visible;
    }

    /// Keeps a new audio to video offset for this engine and the ones rebuilt later.
    pub fn set_audio_video_offset(&mut self, offset: i64)
        ensures
            final(self).player_builder == (PlayerBuilder { audio_offset: offset, ..old(self).player_builder }),
            final(self).playback_state == old(self).playback_state,
            final(self).video_view.zoom_factor == old(self).video_view.zoom_factor,
    {
        self.player_builder.audio_offset(offset);
    }

    /// Keeps a new subtitle to video offset for this engine and the ones rebuilt later.
    pub fn set_subtitle_video_offset(&mut self, offset: i64)
        ensures
            final(self).player_builder == (PlayerBuilder { subtitle_offset: offset, ..old(self).player_builder }),
            final(self).playback_state == old(self).playback_state,
            final(self).video_view.zoom_factor == old(self).video_view.zoom_factor,
    {
        self.player_builder.subtitle_offset(offset);
    }
}

} // verus!
