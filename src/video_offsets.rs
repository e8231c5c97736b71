use vstd::prelude::*;

verus! {

/// The user changed an offset in the dialog (nanoseconds).
#[derive(Debug, Clone, Copy, PartialEq, Eq, Structural)]
pub enum PrivateMsg {
    AudioVideoOffsetChanged(i64),
    SubtitleVideoOffsetChanged(i64),
}

/// A request to the dialog: show the engine's offsets, or a change made by the user.
#[derive(Debug, Clone, Copy, PartialEq, Eq, Structural)]
pub enum VideoOffsetsComponentInput {
    SetAudioVideoOffset(i64),
    SetSubtitleVideoOffset(i64),
    PrivateMessage(PrivateMsg),
}

/// An offset the user chose, to be applied to the engine.
#[derive(Debug, Clone, Copy, PartialEq, Eq, Structural)]
pub enum VideoOffsetsComponentOutput {
    SetAudioVideoOffset(i64),
    SetSubtitleVideoOffset(i64),
}

/// The offsets the dialog opens with.
#[derive(Debug, Clone, Copy, PartialEq, Eq, Structural)]
pub struct VideoOffsetsComponentInit {
    pub audio_video_offset: i64,
    pub subtitle_video_offset: i64,
}

/// The offsets the dialog shows.
#[derive(Debug, Clone, Copy, PartialEq, Eq, Structural)]
pub struct VideoOffsetsComponentModel {
    pub audio_video_offset: i64,
    pub subtitle_video_offset: i64,
}

impl VideoOffsetsComponentModel {
    pub fn new(init: VideoOffsetsComponentInit) -> (r: VideoOffsetsComponentModel)
        ensures
            r.audio_video_offset == init.audio_video_offset,
            r.subtitle_video_offset == init.subtitle_video_offset,
    {
        VideoOffsetsComponentModel {
            audio_video_offset: init.audio_video_offset,
            subtitle_video_offset: init.subtitle_video_offset,
        }
    }

    /// Handles a request: offsets set from outside are shown; the user's changes are
    /// passed on to be applied, and shown once the engine reports them back.
    pub fn update(&mut self, msg: VideoOffsetsComponentInput) -> (r: Option<VideoOffsetsComponentOutput>)
        ensures
            match msg {
                VideoOffsetsComponentInput::SetAudioVideoOffset(o) => *final(self) == (VideoOffsetsComponentModel {
                    audio_video_offset: o,
                    ..*old(self)
                }) && r is None,
                VideoOffsetsComponentInput::SetSubtitleVideoOffset(o) => *final(self) == (VideoOffsetsComponentModel {
                    subtitle_video_offset: o,
                    ..*old(self)
                }) && r is None,
                VideoOffsetsComponentInput::PrivateMessage(PrivateMsg::AudioVideoOffsetChanged(o)) => *final(self) == *old(self) && r == Some(VideoOffsetsComponentOutput::SetAudioVideoOffset(o)),
                VideoOffsetsComponentInput::PrivateMessage(PrivateMsg::SubtitleVideoOffsetChanged(o)) => *final(self) == *old(self) && r == Some(VideoOffsetsComponentOutput::SetSubtitleVideoOffset(o)),
            },
    {
        match msg {
            VideoOffsetsComponentInput::SetAudioVideoOffset(o) => {
                self.audio_video_offset = o;
                None
            },
            VideoOffsetsComponentInput::SetSubtitleVideoOffset(o) => {
                self.subtitle_video_offset = o;
                None
            },
            VideoOffsetsComponentInput::PrivateMessage(PrivateMsg::AudioVideoOffsetChanged(o)) => Some(
                VideoOffsetsComponentOutput::SetAudioVideoOffset(o),
            ),
            VideoOffsetsComponentInput::PrivateMessage(PrivateMsg::SubtitleVideoOffsetChanged(o)) => Some(
                VideoOffsetsComponentOutput::SetSubtitleVideoOffset(o),
            ),
        }
    }

    pub fn audio_video_offset(&self) -> (r: i64)
        ensures
            r == self.audio_video_offset,
    {
        self.audio_video_offset
    }

    pub fn subtitle_video_offset(&self) -> (r: i64)
        ensures
            r == self.subtitle_video_offset,
    {
        self.subtitle_video_offset
    }
}

} // verus!
