//! Playback control and presentation engine of a media player: the playback state
//! machine over the media backend's notifications, the playlist with stable entry
//! handles, the geometry of a zoomable video view, and the interaction state
//! around it.

pub mod actions;
pub mod codec_ranking;
pub mod geometry;
pub mod message_dialog;
pub mod playback;
pub mod playlist;
pub mod session;
pub mod video_offsets;
