use mxl_player_components::playback::{
    audio_track_request, transport_for, BackendMessage, BackendState, PlaybackState, PlayerBuilder, PlayerComponentCommand,
    PlayerData, Track, Transport,
};

fn data_in(state: PlaybackState) -> PlayerData {
    let mut d = PlayerData::new();
    d.set_state(state);
    d
}

#[test]
fn engine_starts_stopped() {
    let mut d = PlayerData::new();
    assert_eq!(d.current_state, Some(PlaybackState::Stopped));
    assert_eq!(d.change_state(PlaybackState::Stopped), None);
    let r = d.change_state(PlaybackState::Playing);
    assert_eq!(
        r,
        Some(PlayerComponentCommand::StateChanged(Some(PlaybackState::Stopped), PlaybackState::Playing))
    );
    assert_eq!(d.current_state, Some(PlaybackState::Playing));
}

#[test]
fn unchanged_state_is_not_reported() {
    let mut d = data_in(PlaybackState::Paused);
    assert_eq!(d.change_state(PlaybackState::Paused), None);
    assert_eq!(d.current_state, Some(PlaybackState::Paused));
}

#[test]
fn no_report_repeats_a_state() {
    let events = [
        PlaybackState::Playing,
        PlaybackState::Playing,
        PlaybackState::Buffering,
        PlaybackState::Buffering,
        PlaybackState::Playing,
        PlaybackState::Paused,
        PlaybackState::Paused,
        PlaybackState::Stopped,
        PlaybackState::Stopped,
    ];
    let mut d = PlayerData::new();
    let mut reports = Vec::new();
    for e in events {
        if let Some(PlayerComponentCommand::StateChanged(old, new)) = d.change_state(e) {
            reports.push((old, new));
        }
    }
    assert_eq!(reports.len(), 5);
    for (i, (old, new)) in reports.iter().enumerate() {
        assert_ne!(*old, Some(*new));
        if i > 0 {
            assert_eq!(*old, Some(reports[i - 1].1));
        }
    }
}

#[test]
fn stopped_is_suppressed_in_error() {
    let mut d = data_in(PlaybackState::Error);
    assert_eq!(d.change_state(PlaybackState::Stopped), None);
    assert_eq!(d.change_state(PlaybackState::Stopped), None);
    assert_eq!(d.current_state, Some(PlaybackState::Error));
}

#[test]
fn explicit_stop_leaves_error() {
    let mut d = data_in(PlaybackState::Error);
    let r = d.stop();
    assert_eq!(
        r,
        Some(PlayerComponentCommand::StateChanged(Some(PlaybackState::Error), PlaybackState::Stopped))
    );
    assert_eq!(d.current_state, Some(PlaybackState::Stopped));
}

#[test]
fn stop_when_stopped_reports_again() {
    let mut d = data_in(PlaybackState::Stopped);
    assert_eq!(
        d.stop(),
        Some(PlayerComponentCommand::StateChanged(Some(PlaybackState::Stopped), PlaybackState::Stopped))
    );
    assert_eq!(d.current_state, Some(PlaybackState::Stopped));
}

#[test]
fn stop_when_playing_leaves_state_to_backend() {
    let mut d = data_in(PlaybackState::Playing);
    assert_eq!(d.stop(), None);
    assert_eq!(d.current_state, Some(PlaybackState::Playing));
    let mut fresh = PlayerData::new();
    assert_eq!(
        fresh.stop(),
        Some(PlayerComponentCommand::StateChanged(Some(PlaybackState::Stopped), PlaybackState::Stopped))
    );
    assert_eq!(fresh.current_state, Some(PlaybackState::Stopped));
}

#[test]
fn error_message_forces_error_state() {
    let mut d = data_in(PlaybackState::Playing);
    let r = d.handle_message(BackendMessage::Error("decoder failed".to_string()));
    assert_eq!(
        r,
        vec![
            PlayerComponentCommand::StateChanged(Some(PlaybackState::Playing), PlaybackState::Error),
            PlayerComponentCommand::Error("decoder failed".to_string()),
        ]
    );
    assert_eq!(d.current_state, Some(PlaybackState::Error));
    let r = d.handle_message(BackendMessage::Error("again".to_string()));
    assert_eq!(r, vec![PlayerComponentCommand::Error("again".to_string())]);
}

#[test]
fn backend_stopped_after_error_is_dropped() {
    let mut d = data_in(PlaybackState::Error);
    let r = d.handle_message(BackendMessage::StateChanged(BackendState::Stopped));
    assert!(r.is_empty());
    assert_eq!(d.current_state, Some(PlaybackState::Error));
    let r = d.handle_message(BackendMessage::StateChanged(BackendState::Playing));
    assert_eq!(
        r,
        vec![PlayerComponentCommand::StateChanged(Some(PlaybackState::Error), PlaybackState::Playing)]
    );
}

#[test]
fn messages_are_normalized() {
    let mut d = PlayerData::new();
    assert_eq!(d.handle_message(BackendMessage::DurationChanged(Some(1500))), vec![PlayerComponentCommand::DurationChanged(1500)]);
    assert!(d.handle_message(BackendMessage::DurationChanged(None)).is_empty());
    assert_eq!(d.handle_message(BackendMessage::PositionUpdated(Some(250))), vec![PlayerComponentCommand::PositionUpdated(250)]);
    assert!(d.handle_message(BackendMessage::PositionUpdated(None)).is_empty());
    assert_eq!(
        d.handle_message(BackendMessage::EndOfStream(Some("file:///a.mp4".to_string()))),
        vec![PlayerComponentCommand::EndOfStream("file:///a.mp4".to_string())]
    );
    assert!(d.handle_message(BackendMessage::EndOfStream(None)).is_empty());
    assert_eq!(
        d.handle_message(BackendMessage::VideoDimensionsChanged(1920, 1080)),
        vec![PlayerComponentCommand::VideoDimensionsChanged(1920, 1080)]
    );
    assert_eq!(d.handle_message(BackendMessage::SeekDone), vec![PlayerComponentCommand::SeekDone]);
    assert_eq!(d.handle_message(BackendMessage::MediaInfoUpdated), vec![PlayerComponentCommand::MediaInfoUpdated]);
    assert_eq!(
        d.handle_message(BackendMessage::AudioVideoOffsetChanged(-20)),
        vec![PlayerComponentCommand::AudioVideoOffsetChanged(-20)]
    );
    assert_eq!(
        d.handle_message(BackendMessage::SubtitleVideoOffsetChanged(30)),
        vec![PlayerComponentCommand::SubtitleVideoOffsetChanged(30)]
    );
    assert_eq!(
        d.handle_message(BackendMessage::Warning("late".to_string())),
        vec![PlayerComponentCommand::Warning("late".to_string())]
    );
    assert!(d.handle_message(BackendMessage::StateChanged(BackendState::Other)).is_empty());
    assert!(d.handle_message(BackendMessage::Other).is_empty());
    assert_eq!(d.current_state, Some(PlaybackState::Stopped));
}

#[test]
fn audio_track_requests() {
    assert_eq!(audio_track_request(Track::Enable), (true, None));
    assert_eq!(audio_track_request(Track::Disable), (false, None));
    assert_eq!(audio_track_request(Track::Stream(2)), (true, Some(2)));
}

#[test]
fn transport_commands() {
    assert_eq!(transport_for(PlaybackState::Playing), Transport::Play);
    assert_eq!(transport_for(PlaybackState::Paused), Transport::Pause);
    assert_eq!(transport_for(PlaybackState::Stopped), Transport::Stop);
}

#[test]
fn builder_keeps_settings() {
    let mut b = PlayerBuilder::new();
    assert_eq!(b, PlayerBuilder { seek_accurate: false, audio_offset: 0, subtitle_offset: 0 });
    b.seek_accurate(true).audio_offset(-40_000_000).subtitle_offset(15);
    assert_eq!(b, PlayerBuilder { seek_accurate: true, audio_offset: -40_000_000, subtitle_offset: 15 });
}
