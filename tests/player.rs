use homeplayer::cd_audio::CdTrackInfo;
use homeplayer::player::{
    audio_track_list, cd_track_title, device_list, find_device, forward_target, item_title,
    pause_toggle, prefetch_bytes, rewind_target, session_finished, session_started, stream_bitrate,
    stream_started, stream_title_change, uses_default_device, EngineState, PlayerState, SoundItem,
    STOPPED_CURSOR,
};

fn item(n: u32) -> SoundItem {
    SoundItem {
        artist: format!("Artist {n}"),
        album: format!("Album {n}"),
        title: format!("Title {n}"),
        path: format!("/music/{n}.mp3"),
        cover: format!("/music/{n}.jpg"),
    }
}

fn cd_track(number: u8, start_lba: i32, end_lba: i32, is_audio: bool) -> CdTrackInfo {
    CdTrackInfo { number, start_lba, end_lba, duration_nanos: 0, is_audio }
}

#[test]
fn file_session_events_and_titles_in_queue_order() {
    let mut engine = EngineState::new();
    engine.append(vec![item(1), item(2), item(3)]);
    let mut events = session_started();
    let mut titles = Vec::new();
    while let Some(next) = engine.next_queue_item() {
        titles.push(item_title(&next));
    }
    events.extend(session_finished());
    assert_eq!(
        events,
        vec![
            PlayerState::Playing,
            PlayerState::Seekable,
            PlayerState::StartPlaying,
            PlayerState::Stopped,
            PlayerState::Unseekable
        ]
    );
    let names: Vec<&str> = titles.iter().map(|t| t.title.as_str()).collect();
    assert_eq!(names, vec!["Title 1", "Title 2", "Title 3"]);
    assert_eq!(titles[1].artist, "Artist 2");
    assert_eq!(titles[1].album, "Album 2");
    assert_eq!(titles[1].cover, "/music/2.jpg");
    assert_eq!(engine.cursor(), 3);
}

#[test]
fn cd_session_plays_audio_tracks_only() {
    let tracks = vec![cd_track(1, 0, 100, true), cd_track(2, 100, 200, false), cd_track(3, 200, 300, true)];
    let audio = audio_track_list(&tracks);
    let mut engine = EngineState::new();
    engine.seek_cursor(0);
    let mut titles = Vec::new();
    while let Some(i) = engine.claim_index(audio.len()) {
        titles.push(cd_track_title(&audio[i]));
    }
    let names: Vec<&str> = titles.iter().map(|t| t.title.as_str()).collect();
    assert_eq!(names, vec!["Track 1", "Track 3"]);
    assert!(titles.iter().all(|t| t.album == "Audio CD" && t.artist.is_empty() && t.cover.is_empty()));
}

#[test]
fn cd_session_starts_at_index() {
    let tracks = vec![cd_track(1, 0, 100, true), cd_track(2, 100, 200, true), cd_track(12, 200, 300, true)];
    let audio = audio_track_list(&tracks);
    let mut engine = EngineState::new();
    engine.seek_cursor(1);
    let mut played = Vec::new();
    while let Some(i) = engine.claim_index(audio.len()) {
        played.push(cd_track_title(&audio[i]).title);
    }
    assert_eq!(played, vec!["Track 2".to_string(), "Track 12".to_string()]);
}

#[test]
fn stop_ends_any_session() {
    let mut engine = EngineState::new();
    engine.append(vec![item(1), item(2)]);
    assert!(engine.next_queue_item().is_some());
    assert_eq!(engine.stop(), PlayerState::Stopped);
    assert_eq!(engine.cursor(), STOPPED_CURSOR);
    assert!(engine.next_queue_item().is_none());
    assert_eq!(engine.claim_index(5), None);
}

#[test]
fn clear_empties_queue_and_resets_cursor() {
    let mut engine = EngineState::new();
    engine.append(vec![item(1), item(2)]);
    engine.next_queue_item();
    engine.clear();
    assert_eq!(engine.queue_len(), 0);
    assert_eq!(engine.cursor(), 0);
}

#[test]
fn skip_previous_clamps_at_zero() {
    let mut engine = EngineState::new();
    engine.skip_previous();
    assert_eq!(engine.cursor(), 0);
    engine.seek_cursor(1);
    engine.skip_previous();
    assert_eq!(engine.cursor(), 0);
    engine.seek_cursor(5);
    engine.skip_previous();
    assert_eq!(engine.cursor(), 3);
}

#[test]
fn skip_previous_replays_previous_item() {
    let mut engine = EngineState::new();
    engine.append(vec![item(1), item(2), item(3)]);
    engine.next_queue_item();
    engine.next_queue_item();
    engine.skip_previous();
    assert_eq!(engine.next_queue_item().unwrap().title, "Title 1");
}

#[test]
fn mute_twice_restores_volume() {
    let mut engine = EngineState::new();
    let volume = 0.37f32.to_bits();
    let (v1, e1) = engine.mute(volume);
    assert_eq!(e1, PlayerState::Muted);
    assert_eq!(f32::from_bits(v1), 0.0);
    let (v2, e2) = engine.mute(v1);
    assert_eq!(e2, PlayerState::Unmuted);
    assert_eq!(v2, volume);
    assert_eq!(f32::from_bits(v2), 0.37f32);
}

#[test]
fn unmute_without_memory_gives_zero() {
    let mut engine = EngineState::new();
    let (v, e) = engine.mute((-0.0f32).to_bits());
    assert_eq!(e, PlayerState::Unmuted);
    assert_eq!(f32::from_bits(v), 0.0);
}

#[test]
fn switch_device_keeps_volume() {
    let mut engine = EngineState::new();
    engine.append(vec![item(1)]);
    let volume = 0.8f32.to_bits();
    let applied = engine.switch_device(volume);
    assert_eq!(f32::from_bits(applied), 0.8f32);
    assert_eq!(engine.queue_len(), 0);
    assert_eq!(engine.cursor(), 0);
}

#[test]
fn pause_toggles() {
    assert_eq!(pause_toggle(true), PlayerState::Playing);
    assert_eq!(pause_toggle(false), PlayerState::Paused);
}

#[test]
fn stream_session_events() {
    assert_eq!(stream_started(), vec![PlayerState::Playing, PlayerState::StartPlaying]);
}

#[test]
fn stream_title_splits_artist_and_title() {
    let t = stream_title_change(Some("Queen - Bohemian Rhapsody"), "icons/radio.png");
    assert_eq!(t.artist, "Queen");
    assert_eq!(t.title, "Bohemian Rhapsody");
    assert_eq!(t.album, "-");
    assert_eq!(t.cover, "icons/radio.png");
}

#[test]
fn stream_title_drops_quote_suffix() {
    let t = stream_title_change(Some("Artist - Title'extra info"), "");
    assert_eq!(t.artist, "Artist");
    assert_eq!(t.title, "Title");
}

#[test]
fn stream_title_splits_at_first_dash() {
    let t = stream_title_change(Some("A-ha - Take On Me"), "");
    assert_eq!(t.artist, "A");
    assert_eq!(t.title, "ha - Take On Me");
}

#[test]
fn stream_title_without_dash() {
    let t = stream_title_change(Some("  News at nine  "), "");
    assert_eq!(t.artist, "News at nine");
    assert_eq!(t.title, "-");
}

#[test]
fn stream_title_missing() {
    let t = stream_title_change(None, "x.png");
    assert_eq!(t.artist, "");
    assert_eq!(t.title, "");
    assert_eq!(t.album, "-");
    assert_eq!(t.cover, "x.png");
}

#[test]
fn bitrate_from_header() {
    assert_eq!(stream_bitrate(Some("128")), Some(128));
    assert_eq!(stream_bitrate(Some("+64")), Some(64));
    assert_eq!(stream_bitrate(None), Some(256));
    assert_eq!(stream_bitrate(Some("")), None);
    assert_eq!(stream_bitrate(Some("12k")), None);
    assert_eq!(stream_bitrate(Some("18446744073709551615")), Some(u64::MAX));
    assert_eq!(stream_bitrate(Some("18446744073709551616")), None);
}

#[test]
fn prefetch_is_five_seconds() {
    assert_eq!(prefetch_bytes(128), Some(128 / 8 * 1024 * 5));
    assert_eq!(prefetch_bytes(256), Some(163_840));
    assert_eq!(prefetch_bytes(7), Some(0));
    assert_eq!(prefetch_bytes(u64::MAX), None);
}

#[test]
fn default_device_names() {
    assert!(uses_default_device(None));
    assert!(uses_default_device(Some("")));
    assert!(uses_default_device(Some("Default")));
    assert!(!uses_default_device(Some("default")));
    assert!(!uses_default_device(Some("USB Audio")));
}

#[test]
fn device_list_starts_with_default() {
    let list = device_list(vec!["HDMI".to_string(), "USB Audio".to_string()]);
    assert_eq!(list, vec!["Default".to_string(), "HDMI".to_string(), "USB Audio".to_string()]);
    assert_eq!(device_list(Vec::new()), vec!["Default".to_string()]);
}

#[test]
fn find_device_takes_first_match() {
    let names = vec!["HDMI".to_string(), "USB".to_string(), "USB".to_string()];
    assert_eq!(find_device(&names, "USB"), Some(1));
    assert_eq!(find_device(&names, "Speaker"), None);
}

#[test]
fn seek_targets() {
    assert_eq!(forward_target(1_000_000_000), Some(6_000_000_000));
    assert_eq!(forward_target(u128::MAX), None);
    assert_eq!(rewind_target(7_000_000_000), Some(2_000_000_000));
    assert_eq!(rewind_target(5_000_000_000), None);
    assert_eq!(rewind_target(0), None);
}
