use mxl_player_components::playlist::{
    DiscoveryError, EntryError, InsertPosition, MediaMetadata, PlaylistChange, PlaylistComponentModel,
    PlaylistCommandOutput, PlaylistComponentOutput, PlaylistEntryInit, PlaylistState, RepeatMode, SortOrder,
};

fn init(name: &str) -> PlaylistEntryInit {
    PlaylistEntryInit { uri: format!("file:///media/{name}"), short_uri: Some(name.to_string()), error: None }
}

fn inits(names: &[&str]) -> Vec<PlaylistEntryInit> {
    names.iter().map(|n| init(n)).collect()
}

fn names(p: &PlaylistComponentModel) -> Vec<String> {
    p.uris.iter().map(|e| e.short_uri.clone()).collect()
}

fn playlist(list: &[&str]) -> (PlaylistComponentModel, Vec<u64>) {
    let mut p = PlaylistComponentModel::new();
    let (handles, out) = p.add(inits(list), InsertPosition::Back).unwrap();
    assert_eq!(out, PlaylistComponentOutput::PlaylistChanged(PlaylistChange::Added));
    (p, handles)
}

fn switch_uri(name: &str) -> Option<PlaylistComponentOutput> {
    Some(PlaylistComponentOutput::SwitchUri(format!("file:///media/{name}")))
}

#[test]
fn add_back_keeps_order_and_numbers_handles() {
    let (p, handles) = playlist(&["a", "b", "c"]);
    assert_eq!(names(&p), vec!["a", "b", "c"]);
    assert_eq!(handles, vec![0, 1, 2]);
    assert!(p.uris.iter().all(|e| e.updating && e.duration_ms.is_none() && e.info_text.is_empty()));
    assert!(!p.show_placeholder);
    assert_eq!(p.placeholder_command(), PlaylistCommandOutput::ShowPlaceholder(false));
    assert_eq!(p.dynamic_index(), None);
}

#[test]
fn add_front_puts_each_entry_first() {
    let (mut p, _) = playlist(&["a"]);
    p.add(inits(&["b", "c"]), InsertPosition::Front).unwrap();
    assert_eq!(names(&p), vec!["c", "b", "a"]);
}

#[test]
fn add_before_and_after_an_entry() {
    let (mut p, h) = playlist(&["a", "b"]);
    p.add(inits(&["x", "y"]), InsertPosition::Before(h[1])).unwrap();
    assert_eq!(names(&p), vec!["a", "x", "y", "b"]);
    p.add(inits(&["z"]), InsertPosition::After(h[0])).unwrap();
    assert_eq!(names(&p), vec!["a", "z", "x", "y", "b"]);
    p.add(inits(&["end"]), InsertPosition::After(h[1])).unwrap();
    assert_eq!(names(&p), vec!["a", "z", "x", "y", "b", "end"]);
}

#[test]
fn add_at_unknown_handle_changes_nothing() {
    let (mut p, _) = playlist(&["a"]);
    assert_eq!(p.add(inits(&["b"]), InsertPosition::Before(99)), None);
    assert_eq!(names(&p), vec!["a"]);
    assert_eq!(p.next_handle, 1);
}

#[test]
fn failed_uri_is_kept_with_its_error() {
    let mut p = PlaylistComponentModel::new();
    let bad = PlaylistEntryInit { uri: "no such file".to_string(), short_uri: None, error: Some("not a URI".to_string()) };
    p.add(vec![bad], InsertPosition::Back).unwrap();
    assert_eq!(p.uris.len(), 1);
    assert_eq!(p.uris[0].short_uri, "no such file");
    assert_eq!(p.uris[0].error, Some(EntryError::InvalidPath("not a URI".to_string())));
}

#[test]
fn previous_on_first_entry_restarts_it() {
    let (mut p, h) = playlist(&["a", "b", "c"]);
    p.switch(h[0]);
    assert_eq!(p.previous(), switch_uri("a"));
    assert_eq!(p.dynamic_index(), Some(h[0]));
    assert_eq!(p.previous(), switch_uri("a"));
    assert_eq!(p.dynamic_index(), Some(h[0]));
}

#[test]
fn previous_goes_back_one_entry() {
    let (mut p, h) = playlist(&["a", "b", "c"]);
    assert_eq!(p.previous(), None);
    p.switch(h[2]);
    assert_eq!(p.previous(), switch_uri("b"));
    assert!(p.is_active(h[1]));
    assert!(!p.is_active(h[2]));
}

#[test]
fn next_on_last_entry_wraps_when_repeating_all() {
    let (mut p, h) = playlist(&["a", "b", "c"]);
    p.toggle_repeat();
    assert_eq!(p.repeat, RepeatMode::All);
    p.switch(h[2]);
    assert_eq!(p.next(), switch_uri("a"));
    assert_eq!(p.dynamic_index(), Some(h[0]));
}

#[test]
fn next_on_last_entry_ends_without_repeat() {
    let (mut p, h) = playlist(&["a", "b", "c"]);
    p.switch(h[1]);
    assert_eq!(p.next(), switch_uri("c"));
    assert_eq!(p.next(), Some(PlaylistComponentOutput::EndOfPlaylist));
    assert_eq!(p.dynamic_index(), None);
    assert_eq!(p.next(), None);
}

#[test]
fn start_and_activate() {
    let (mut p, h) = playlist(&["a", "b"]);
    assert_eq!(p.start(), switch_uri("a"));
    assert_eq!(p.activate(1), switch_uri("b"));
    assert_eq!(p.dynamic_index(), Some(h[1]));
    assert_eq!(p.activate(5), None);
    assert_eq!(p.dynamic_index(), Some(h[1]));
    let mut empty = PlaylistComponentModel::new();
    assert_eq!(empty.start(), None);
}

#[test]
fn removing_active_entry_moves_on_first() {
    let (mut p, h) = playlist(&["A", "B", "C"]);
    p.switch(h[1]);
    let out = p.remove(h[1]);
    assert_eq!(
        out,
        vec![
            PlaylistComponentOutput::SwitchUri("file:///media/C".to_string()),
            PlaylistComponentOutput::PlaylistChanged(PlaylistChange::Removed),
        ]
    );
    assert_eq!(names(&p), vec!["A", "C"]);
    assert_eq!(p.dynamic_index(), Some(h[2]));
    assert!(p.is_active(h[2]));
}

#[test]
fn add_then_remove_restores_playlist() {
    let (mut p, h) = playlist(&["a", "b", "c"]);
    p.switch(h[1]);
    let before = p.uris.clone();
    let (added, _) = p.add(inits(&["d"]), InsertPosition::Back).unwrap();
    assert_eq!(p.uris.len(), 4);
    let out = p.remove(added[0]);
    assert_eq!(out, vec![PlaylistComponentOutput::PlaylistChanged(PlaylistChange::Removed)]);
    assert_eq!(p.uris, before);
    assert_eq!(p.dynamic_index(), Some(h[1]));
}

#[test]
fn removing_last_active_entry_ends_playlist() {
    let (mut p, h) = playlist(&["a", "b"]);
    p.switch(h[1]);
    let out = p.remove(h[1]);
    assert_eq!(
        out,
        vec![
            PlaylistComponentOutput::EndOfPlaylist,
            PlaylistComponentOutput::PlaylistChanged(PlaylistChange::Removed),
        ]
    );
    assert_eq!(p.dynamic_index(), None);
}

#[test]
fn removing_only_entry_while_repeating() {
    let (mut p, h) = playlist(&["a"]);
    p.toggle_repeat();
    p.switch(h[0]);
    p.remove(h[0]);
    assert!(p.uris.is_empty());
    assert!(p.show_placeholder);
    assert_eq!(p.dynamic_index(), None);
}

#[test]
fn removing_unknown_handle_changes_nothing() {
    let (mut p, _) = playlist(&["a"]);
    assert!(p.remove(42).is_empty());
    assert_eq!(names(&p), vec!["a"]);
}

#[test]
fn move_entry_relocates_it() {
    let (mut p, h) = playlist(&["a", "b", "c"]);
    assert_eq!(p.move_entry(h[0], 2), Some(PlaylistComponentOutput::PlaylistChanged(PlaylistChange::Reordered)));
    assert_eq!(names(&p), vec!["b", "c", "a"]);
    p.move_entry(h[0], 0);
    assert_eq!(names(&p), vec!["a", "b", "c"]);
    assert_eq!(p.move_entry(h[0], 3), None);
    assert_eq!(p.move_entry(77, 0), None);
    assert_eq!(names(&p), vec!["a", "b", "c"]);
}

#[test]
fn sort_by_short_uri_is_stable() {
    let (mut p, h) = playlist(&["b", "a", "c", "a"]);
    assert_eq!(p.sort(SortOrder::ShortUri), PlaylistComponentOutput::PlaylistChanged(PlaylistChange::Reordered));
    assert_eq!(names(&p), vec!["a", "a", "b", "c"]);
    let handles: Vec<u64> = p.uris.iter().map(|e| e.handle).collect();
    assert_eq!(handles, vec![h[1], h[3], h[0], h[2]]);
}

#[test]
fn sort_by_short_uri_uses_byte_order() {
    let (mut p, _) = playlist(&["b", "B", "ab", "a", "é"]);
    p.sort(SortOrder::ShortUri);
    assert_eq!(names(&p), vec!["B", "a", "ab", "b", "é"]);
}

#[test]
fn sort_by_start_time_puts_unknown_first() {
    let (mut p, h) = playlist(&["late", "none", "early", "same"]);
    let times = [Some(300), None, Some(100), Some(300)];
    for (handle, t) in h.iter().zip(times) {
        let meta = MediaMetadata { uri: String::new(), duration_ms: None, start_time: t, info_text: String::new() };
        p.update_metadata(*handle, Ok(meta));
    }
    p.sort(SortOrder::StartTime);
    let handles: Vec<u64> = p.uris.iter().map(|e| e.handle).collect();
    assert_eq!(handles, vec![h[1], h[2], h[0], h[3]]);
}

#[test]
fn sort_keeps_active_entry() {
    let (mut p, h) = playlist(&["c", "a", "b"]);
    p.switch(h[0]);
    p.sort(SortOrder::ShortUri);
    assert_eq!(names(&p), vec!["a", "b", "c"]);
    assert_eq!(p.next(), Some(PlaylistComponentOutput::EndOfPlaylist));
}

#[test]
fn metadata_update_fills_entry() {
    let (mut p, h) = playlist(&["a"]);
    assert_eq!(p.fetch_metadata(h[0]), Some("file:///media/a".to_string()));
    assert!(p.uris[0].updating);
    let meta = MediaMetadata {
        uri: "file:///media/a.mkv".to_string(),
        duration_ms: Some(61_000),
        start_time: Some(1_700_000_000),
        info_text: "recorded".to_string(),
    };
    assert_eq!(
        p.update_metadata(h[0], Ok(meta)),
        Some(PlaylistComponentOutput::PlaylistChanged(PlaylistChange::Updated))
    );
    let e = &p.uris[0];
    assert!(!e.updating);
    assert_eq!(e.uri, "file:///media/a.mkv");
    assert_eq!(e.duration_ms, Some(61_000));
    assert_eq!(e.start_time, Some(1_700_000_000));
    assert_eq!(e.info_text, "recorded");
    assert_eq!(e.error, None);
}

#[test]
fn metadata_failure_is_kept_on_entry() {
    let (mut p, h) = playlist(&["a"]);
    p.update_metadata(h[0], Err(DiscoveryError::Timeout));
    assert_eq!(p.uris[0].error, Some(EntryError::Discovery(DiscoveryError::Timeout)));
    assert!(!p.uris[0].updating);
    assert_eq!(p.uris[0].uri, "file:///media/a");
}

#[test]
fn metadata_for_removed_entry_is_dropped() {
    let (mut p, h) = playlist(&["a", "b"]);
    p.remove(h[0]);
    assert_eq!(p.update_metadata(h[0], Err(DiscoveryError::Busy)), None);
    assert_eq!(p.fetch_metadata(h[0]), None);
    assert_eq!(names(&p), vec!["b"]);
    assert_eq!(p.uris[0].error, None);
}

#[test]
fn stopping_the_playlist() {
    let (mut p, h) = playlist(&["a"]);
    p.switch(h[0]);
    p.player_playing();
    assert_eq!(p.state, PlaylistState::Playing);
    assert_eq!(p.player_stopped(), None);
    assert_eq!(p.dynamic_index(), Some(h[0]));
    assert_eq!(p.stop(), PlaylistComponentOutput::StateChanged(PlaylistState::Stopping));
    assert_eq!(p.player_stopped(), Some(PlaylistComponentOutput::StateChanged(PlaylistState::Stopped)));
    assert_eq!(p.dynamic_index(), None);
    assert_eq!(p.state, PlaylistState::Stopped);
}

#[test]
fn repeat_toggles_back() {
    let mut p = PlaylistComponentModel::new();
    assert!(p.show_placeholder);
    assert_eq!(p.placeholder_command(), PlaylistCommandOutput::ShowPlaceholder(true));
    p.toggle_repeat();
    p.toggle_repeat();
    assert_eq!(p.repeat, RepeatMode::Off);
}

#[test]
fn fetch_all_marks_every_entry() {
    let (mut p, h) = playlist(&["a", "b"]);
    for handle in &h {
        p.update_metadata(*handle, Err(DiscoveryError::Busy));
    }
    assert!(p.uris.iter().all(|e| !e.updating));
    let requests = p.fetch_all_metadata();
    assert_eq!(requests, vec![(h[0], "file:///media/a".to_string()), (h[1], "file:///media/b".to_string())]);
    assert!(p.uris.iter().all(|e| e.updating));
}
