use vstd::prelude::*;

verus! {

/// State of the playback as reported to callers.
#[derive(Debug, Clone, Copy, PartialEq, Eq, Structural)]
pub enum PlaybackState {
    Stopped,
    Paused,
    Playing,
    Buffering,
    Error,
}

/// A state as the media backend reports it; `Other` covers states this engine does not track.
#[derive(Debug, Clone, Copy, PartialEq, Eq, Structural)]
pub enum BackendState {
    Stopped,
    Paused,
    Playing,
    Buffering,
    Other,
}

/// A raw notification of the media backend, with times in milliseconds.
#[derive(Debug, Clone, PartialEq, Eq)]
pub enum BackendMessage {
    /// The end of the stream, with the URI the backend is playing, if any.
    EndOfStream(Option<String>),
    MediaInfoUpdated,
    DurationChanged(Option<u64>),
    PositionUpdated(Option<u64>),
    VideoDimensionsChanged(u32, u32),
    StateChanged(BackendState),
    SeekDone,
    AudioVideoOffsetChanged(i64),
    SubtitleVideoOffsetChanged(i64),
    Warning(String),
    Error(String),
    /// A notification the engine ignores.
    Other,
}

/// A normalized notification of the engine, with times in milliseconds.
#[derive(Debug, Clone, PartialEq, Eq)]
pub enum PlayerComponentCommand {
    MediaInfoUpdated,
    PositionUpdated(u64),
    DurationChanged(u64),
    SeekDone,
    EndOfStream(String),
    /// The state went from the first value (unset before the first change) to the second.
    StateChanged(Option<PlaybackState>, PlaybackState),
    VideoDimensionsChanged(u32, u32),
    AudioVideoOffsetChanged(i64),
    SubtitleVideoOffsetChanged(i64),
    Warning(String),
    Error(String),
}

/// The shared, lock-guarded part of the engine: the current state.
#[derive(Debug)]
pub struct PlayerData {
    pub current_state: Option<PlaybackState>,
}

/// Whether a backend report of `new_state` is adopted while in `current`.
pub open spec fn accepts_state(current: Option<PlaybackState>, new_state: PlaybackState) -> bool {
    match current {
        None => true,
        Some(c) => c != new_state && !(c == PlaybackState::Error && new_state == PlaybackState::Stopped),
    }
}

/// The state after a backend report of `new_state` while in `current`.
pub open spec fn state_after(current: Option<PlaybackState>, new_state: PlaybackState) -> Option<PlaybackState> {
    if accepts_state(current, new_state) {
        Some(new_state)
    } else {
        current
    }
}

/// The notification produced by a backend report of `new_state` while in `current`.
pub open spec fn report_of(current: Option<PlaybackState>, new_state: PlaybackState) -> Option<PlayerComponentCommand> {
    if accepts_state(current, new_state) {
        Some(PlayerComponentCommand::StateChanged(current, new_state))
    } else {
        None
    }
}

/// The playback state a backend state stands for.
pub open spec fn tracked_state(s: BackendState) -> Option<PlaybackState> {
    match s {
        BackendState::Stopped => Some(PlaybackState::Stopped),
        BackendState::Paused => Some(PlaybackState::Paused),
        BackendState::Playing => Some(PlaybackState::Playing),
        BackendState::Buffering => Some(PlaybackState::Buffering),
        BackendState::Other => None,
    }
}

/// The state after the engine handles `msg` while in `current`.
pub open spec fn state_after_message(current: Option<PlaybackState>, msg: BackendMessage) -> Option<PlaybackState> {
    match msg {
        BackendMessage::StateChanged(s) => match tracked_state(s) {
            Some(t) => state_after(current, t),
            None => current,
        },
        BackendMessage::Error(_) => Some(PlaybackState::Error),
        _ => current,
    }
}

/// The notifications the engine sends when it handles `msg` while in `current`.
pub open spec fn commands_of_message(current: Option<PlaybackState>, msg: BackendMessage) -> Seq<PlayerComponentCommand> {
    match msg {
        BackendMessage::EndOfStream(uri) => match uri {
            Some(u) => seq![PlayerComponentCommand::EndOfStream(u)],
            None => seq![],
        },
        BackendMessage::MediaInfoUpdated => seq![PlayerComponentCommand::MediaInfoUpdated],
        BackendMessage::DurationChanged(d) => match d {
            Some(v) => seq![PlayerComponentCommand::DurationChanged(v)],
            None => seq![],
        },
        BackendMessage::PositionUpdated(p) => match p {
            Some(v) => seq![PlayerComponentCommand::PositionUpdated(v)],
            None => seq![],
        },
        BackendMessage::VideoDimensionsChanged(w, h) => seq![PlayerComponentCommand::VideoDimensionsChanged(w, h)],
        BackendMessage::StateChanged(s) => match tracked_state(s) {
            Some(t) => match report_of(current, t) {
                Some(c) => seq![c],
                None => seq![],
            },
            None => seq![],
        },
        BackendMessage::SeekDone => seq![PlayerComponentCommand::SeekDone],
        BackendMessage::AudioVideoOffsetChanged(o) => seq![PlayerComponentCommand::AudioVideoOffsetChanged(o)],
        BackendMessage::SubtitleVideoOffsetChanged(o) => seq![PlayerComponentCommand::SubtitleVideoOffsetChanged(o)],
        BackendMessage::Warning(e) => seq![PlayerComponentCommand::Warning(e)],
        BackendMessage::Error(e) => if current == Some(PlaybackState::Error) {
            seq![PlayerComponentCommand::Error(e)]
        } else {
            seq![PlayerComponentCommand::StateChanged(current, PlaybackState::Error), PlayerComponentCommand::Error(e)]
        },
        BackendMessage::Other => seq![],
    }
}

/// The state after an explicit stop request while in `current`.
pub open spec fn state_after_stop(current: Option<PlaybackState>) -> Option<PlaybackState> {
    match current {
        Some(PlaybackState::Error) => Some(PlaybackState::Stopped),
        _ => current,
    }
}

/// The notification sent on an explicit stop request while in `current`.
pub open spec fn report_of_stop(current: Option<PlaybackState>) -> Option<PlayerComponentCommand> {
    match current {
        Some(PlaybackState::Stopped) => Some(
            PlayerComponentCommand::StateChanged(Some(PlaybackState::Stopped), PlaybackState::Stopped),
        ),
        Some(PlaybackState::Error) => Some(
            PlayerComponentCommand::StateChanged(Some(PlaybackState::Error), PlaybackState::Stopped),
        ),
        _ => None,
    }
}

fn tracked_backend_state(s: BackendState) -> (r: Option<PlaybackState>)
    ensures
        r == tracked_state(s),
{
    match s {
        BackendState::Stopped => Some(PlaybackState::Stopped),
        BackendState::Paused => Some(PlaybackState::Paused),
        BackendState::Playing => Some(PlaybackState::Playing),
        BackendState::Buffering => Some(PlaybackState::Buffering),
        BackendState::Other => None,
    }
}

impl PlayerData {
    /// A new engine starts stopped.
    pub fn new() -> (r: PlayerData)
        ensures
            r.current_state == Some(PlaybackState::Stopped),
    {
        PlayerData { current_state: Some(PlaybackState::Stopped) }
    }

    /// Adopts `new_state` unconditionally and reports the change.
    pub fn set_state(&mut self, new_state: PlaybackState) -> (r: PlayerComponentCommand)
        ensures
            final(self).current_state == Some(new_state),
            r == PlayerComponentCommand::StateChanged(old(self).current_state, new_state),
    {
        let old_state = self.current_state;
        self.current_state = Some(new_state);
        PlayerComponentCommand::StateChanged(old_state, new_state)
    }

    /// Applies a state reported by the backend: an unchanged state is ignored,
    /// and so is `Stopped` while in `Error` (the error stays until an explicit stop).
    pub fn change_state(&mut self, new_state: PlaybackState) -> (r: Option<PlayerComponentCommand>)
        ensures
            final(self).current_state == state_after(old(self).current_state, new_state),
            r == report_of(old(self).current_state, new_state),
    {
        let accept = match self.current_state {
            None => true,
            Some(current) => current != new_state && !(current == PlaybackState::Error
                && new_state == PlaybackState::Stopped),
        };
        if accept {
            Some(self.set_state(new_state))
        } else {
            None
        }
    }

    /// The state part of an explicit stop: leaves `Error` for `Stopped`, and
    /// re-reports `Stopped` when already stopped. The caller then stops the backend.
    pub fn stop(&mut self) -> (r: Option<PlayerComponentCommand>)
        ensures
            final(self).current_state == state_after_stop(old(self).current_state),
            r == report_of_stop(old(self).current_state),
    {
        match self.current_state {
            Some(PlaybackState::Stopped) => Some(self.set_state(PlaybackState::Stopped)),
            Some(PlaybackState::Error) => Some(self.set_state(PlaybackState::Stopped)),
            _ => None,
        }
    }

    /// Normalizes one backend notification into the engine's notifications,
    /// updating the state on state changes and errors.
    pub fn handle_message(&mut self, msg: BackendMessage) -> (r: Vec<PlayerComponentCommand>)
        ensures
            final(self).current_state == state_after_message(old(self).current_state, msg),
            r@ == commands_of_message(old(self).current_state, msg),
    {
        let ghost cur = self.current_state;
        let mut out: Vec<PlayerComponentCommand> = Vec::new();
        match msg {
            BackendMessage::EndOfStream(uri) => {
                if let Some(u) = uri {
                    out.push(PlayerComponentCommand::EndOfStream(u));
                }
            },
            BackendMessage::MediaInfoUpdated => out.push(PlayerComponentCommand::MediaInfoUpdated),
            BackendMessage::DurationChanged(d) => {
                if let Some(v) = d {
                    out.push(PlayerComponentCommand::DurationChanged(v));
                }
            },
            BackendMessage::PositionUpdated(p) => {
                if let Some(v) = p {
                    out.push(PlayerComponentCommand::PositionUpdated(v));
                }
            },
            BackendMessage::VideoDimensionsChanged(w, h) => out.push(
                PlayerComponentCommand::VideoDimensionsChanged(w, h),
            ),
            BackendMessage::StateChanged(s) => {
                if let Some(t) = tracked_backend_state(s) {
                    if let Some(c) = self.change_state(t) {
                        out.push(c);
                    }
                }
            },
            BackendMessage::SeekDone => out.push(PlayerComponentCommand::SeekDone),
            BackendMessage::AudioVideoOffsetChanged(o) => out.push(
                PlayerComponentCommand::AudioVideoOffsetChanged(o),
            ),
            BackendMessage::SubtitleVideoOffsetChanged(o) => out.push(
                PlayerComponentCommand::SubtitleVideoOffsetChanged(o),
            ),
            BackendMessage::Warning(e) => out.push(PlayerComponentCommand::Warning(e)),
            BackendMessage::Error(e) => {
                if let Some(c) = self.change_state(PlaybackState::Error) {
                    out.push(c);
                }
                out.push(PlayerComponentCommand::Error(e));
            },
            BackendMessage::Other => {},
        }
        proof {
            assert(out@ =~= commands_of_message(cur, msg));
        }
        out
    }
}

/// Which audio track to play.
#[derive(Debug, Clone, Copy, PartialEq, Eq, Structural)]
pub enum Track {
    Enable,
    Disable,
    /// Enable audio and play the stream with this index.
    Stream(i32),
}

/// The backend calls that select `track`: whether audio is enabled, and the stream
/// to select after enabling it, if any.
pub fn audio_track_request(track: Track) -> (r: (bool, Option<i32>))
    ensures
        r == (match track {
            Track::Enable => (true, None::<i32>),
            Track::Disable => (false, None::<i32>),
            Track::Stream(i) => (true, Some(i)),
        }),
{
    match track {
        Track::Enable => (true, None),
        Track::Disable => (false, None),
        Track::Stream(i) => (true, Some(i)),
    }
}

/// The transport command an explicit state request stands for.
#[derive(Debug, Clone, Copy, PartialEq, Eq, Structural)]
pub enum Transport {
    Play,
    Pause,
    Stop,
}

/// The command for a requested state; only playing, paused and stopped can be requested.
pub fn transport_for(state: PlaybackState) -> (r: Transport)
    requires
        state != PlaybackState::Buffering,
        state != PlaybackState::Error,
    ensures
        state == PlaybackState::Playing ==> r == Transport::Play,
        state == PlaybackState::Paused ==> r == Transport::Pause,
        state == PlaybackState::Stopped ==> r == Transport::Stop,
{
    match state {
        PlaybackState::Playing => Transport::Play,
        PlaybackState::Paused => Transport::Pause,
        _ => Transport::Stop,
    }
}

/// The settings an engine is built with; they outlive the engine, so that a rebuilt
/// engine gets the same offsets. The compositor, an object of the media backend,
/// is held by the code that builds the engine.
#[derive(Debug, Clone, Copy, PartialEq, Eq, Structural)]
pub struct PlayerBuilder {
    pub seek_accurate: bool,
    /// Audio to video offset, in nanoseconds.
    pub audio_offset: i64,
    /// Subtitle to video offset, in nanoseconds.
    pub subtitle_offset: i64,
}

impl PlayerBuilder {
    /// Settings with inaccurate (fast) seeking and no offsets.
    pub fn new() -> (r: PlayerBuilder)
        ensures
            r == (PlayerBuilder { seek_accurate: false, audio_offset: 0, subtitle_offset: 0 }),
    {
        PlayerBuilder { seek_accurate: false, audio_offset: 0, subtitle_offset: 0 }
    }

    pub fn seek_accurate(&mut self, seek_accurate: bool) -> (r: &mut Self)
        ensures
            *r == (PlayerBuilder { seek_accurate, ..*old(self) }),
            *final(self) == *final(r),
    {
        self.seek_accurate = seek_accurate;
        self
    }

    pub fn audio_offset(&mut self, offset: i64) -> (r: &mut Self)
        ensures
            *r == (PlayerBuilder { audio_offset: offset, ..*old(self) }),
            *final(self) == *final(r),
    {
        self.audio_offset = offset;
        self
    }

    pub fn subtitle_offset(&mut self, offset: i64) -> (r: &mut Self)
        ensures
            *r == (PlayerBuilder { subtitle_offset: offset, ..*old(self) }),
            *final(self) == *final(r),
    {
        self.subtitle_offset = offset;
        self
    }
}

/// The state after the backend reports each state of `events` in turn, starting in `current`.
pub open spec fn state_after_all(current: Option<PlaybackState>, events: Seq<PlaybackState>) -> Option<
    PlaybackState,
>
    decreases events.len(),
{
    if events.len() == 0 {
        current
    } else {
        state_after_all(state_after(current, events[0]), events.drop_first())
    }
}

/// The state changes reported while the backend reports each state of `events` in turn.
pub open spec fn reports_of_all(current: Option<PlaybackState>, events: Seq<PlaybackState>) -> Seq<
    (Option<PlaybackState>, PlaybackState),
>
    decreases events.len(),
{
    if events.len() == 0 {
        seq![]
    } else {
        let rest = reports_of_all(state_after(current, events[0]), events.drop_first());
        if accepts_state(current, events[0]) {
            seq![(current, events[0])].add(rest)
        } else {
            rest
        }
    }
}

/// Over any sequence of backend state reports, no reported change has equal old and
/// new states, each report starts from the state the previous one ended in, and
/// the last one ends in the current state.
pub proof fn lemma_reports_never_repeat(current: Option<PlaybackState>, events: Seq<PlaybackState>)
    ensures
        forall|k: int|
            0 <= k < reports_of_all(current, events).len() ==> reports_of_all(current, events)[k].0
                != Some(#[trigger] reports_of_all(current, events)[k].1),
        forall|k: int|
            1 <= k < reports_of_all(current, events).len() ==> (#[trigger] reports_of_all(
                current,
                events,
            )[k]).0 == Some(reports_of_all(current, events)[k - 1].1),
        reports_of_all(current, events).len() > 0 ==> reports_of_all(current, events)[0].0
            == current,
        reports_of_all(current, events).len() > 0 ==> state_after_all(current, events) == Some(
            reports_of_all(current, events).last().1,
        ),
        reports_of_all(current, events).len() == 0 ==> state_after_all(current, events)
            == current,
    decreases events.len(),
{
    if events.len() > 0 {
        let next = state_after(current, events[0]);
        lemma_reports_never_repeat(next, events.drop_first());
        let rest = reports_of_all(next, events.drop_first());
        let all = reports_of_all(current, events);
        if accepts_state(current, events[0]) {
            assert(all == seq![(current, events[0])].add(rest));
            assert forall|k: int| 1 <= k < all.len() implies (#[trigger] all[k]).0 == Some(
                all[k - 1].1,
            ) by {
                if k > 1 {
                    assert(all[k] == rest[k - 1]);
                    assert(all[k - 1] == rest[k - 2]);
                } else {
                    assert(all.len() == rest.len() + 1);
                    assert(all[0] == (current, events[0]));
                    assert(all[1] == rest[0]);
                    assert(rest[0].0 == next);
                }
            }
            assert forall|k: int| 0 <= k < all.len() implies all[k].0 != Some(#[trigger] all[k].1) by {
                if k > 0 {
                    assert(all[k] == rest[k - 1]);
                }
            }
        }
    }
}

/// Whatever the backend reports, no reported change goes from `Error` to `Stopped`:
/// only an explicit stop does that.
pub proof fn lemma_backend_never_clears_error(current: Option<PlaybackState>, events: Seq<PlaybackState>)
    ensures
        forall|k: int|
            0 <= k < reports_of_all(current, events).len() ==> !(#[trigger] reports_of_all(current, events)[k]
                == (Some(PlaybackState::Error), PlaybackState::Stopped)),
    decreases events.len(),
{
    if events.len() > 0 {
        let next = state_after(current, events[0]);
        lemma_backend_never_clears_error(next, events.drop_first());
        let rest = reports_of_all(next, events.drop_first());
        let all = reports_of_all(current, events);
        if accepts_state(current, events[0]) {
            assert forall|k: int| 0 <= k < all.len() implies !(#[trigger] all[k] == (
                Some(PlaybackState::Error),
                PlaybackState::Stopped,
            )) by {
                if k > 0 {
                    assert(all[k] == rest[k - 1]);
                }
            }
        }
    }
}

/// In `Error`, any run of `Stopped` reports from the backend is suppressed: the
/// state stays `Error` and nothing is reported; an explicit stop then leaves `Error`
/// for `Stopped` and reports it.
pub proof fn lemma_error_is_sticky(events: Seq<PlaybackState>)
    requires
        forall|k: int| 0 <= k < events.len() ==> events[k] == PlaybackState::Stopped,
    ensures
        state_after_all(Some(PlaybackState::Error), events) == Some(PlaybackState::Error),
        reports_of_all(Some(PlaybackState::Error), events).len() == 0,
        state_after_stop(Some(PlaybackState::Error)) == Some(PlaybackState::Stopped),
        report_of_stop(Some(PlaybackState::Error)) == Some(
            PlayerComponentCommand::StateChanged(Some(PlaybackState::Error), PlaybackState::Stopped),
        ),
    decreases events.len(),
{
    if events.len() > 0 {
        lemma_error_is_sticky(events.drop_first());
    }
}

} // verus!
