use homeplayer::cd_audio::{eject_outcome, CdInfo, CdTrackInfo};
use homeplayer::config::{default_language, default_max_volume, AudioConfig, Config, ConfigSourceType, Source, Station, UiConfig};
use homeplayer::player::PlayerState;
use homeplayer::ui_state::{
    queue_from_titles, source_type_icon, source_type_label, CdSourceState, MusicTitleItem, PlaybackFlags,
    SettingsState,
};

fn cd_track(number: u8, is_audio: bool) -> CdTrackInfo {
    CdTrackInfo { number, start_lba: 0, end_lba: 10, duration_nanos: 0, is_audio }
}

fn sample_config() -> Config {
    Config {
        sources: vec![
            Source {
                source_type: ConfigSourceType::Stream,
                name: "Radio".to_string(),
                path: String::new(),
                stations: vec![Station {
                    name: "Jazz".to_string(),
                    url: "http://jazz.example/stream".to_string(),
                    icon: "jazz.png".to_string(),
                }],
            },
            Source {
                source_type: ConfigSourceType::CD,
                name: "CD".to_string(),
                path: "/dev/sr0".to_string(),
                stations: Vec::new(),
            },
        ],
        audio: AudioConfig { start_volume: 40, max_volume: 80, device: Some("USB".to_string()) },
        ui: UiConfig { hide_settings: true, language: "de".to_string() },
    }
}

#[test]
fn eject_with_unlocked_door_clears_disc_state() {
    let mut state = CdSourceState::new();
    state.toc_loaded(CdInfo { first_track: 1, last_track: 2, tracks: vec![cd_track(1, true), cd_track(2, true)] });
    assert!(state.disc_present);
    // the unlock call failed (door already unlocked), the eject call succeeded
    match eject_outcome(-1, 0) {
        Ok(()) => state.ejected(),
        Err(_) => state.eject_failed("eject"),
    }
    assert!(!state.disc_present);
    assert!(state.tracks.is_empty());
    assert_eq!(state.status, "Disc ejected. Insert a CD and press Refresh.");
}

#[test]
fn eject_failure_keeps_tracks() {
    let mut state = CdSourceState::new();
    state.toc_loaded(CdInfo { first_track: 1, last_track: 1, tracks: vec![cd_track(1, true)] });
    state.eject_failed("Device busy");
    assert!(state.disc_present);
    assert_eq!(state.tracks.len(), 1);
    assert_eq!(state.status, "Eject failed: Device busy");
}

#[test]
fn toc_loaded_counts_audio_tracks() {
    let mut state = CdSourceState::new();
    state.start_loading();
    assert!(state.loading);
    assert_eq!(state.status, "Reading disc…");
    state.toc_loaded(CdInfo {
        first_track: 1,
        last_track: 3,
        tracks: vec![cd_track(1, true), cd_track(2, false), cd_track(3, true)],
    });
    assert!(!state.loading);
    assert!(state.disc_present);
    assert_eq!(state.tracks.len(), 3);
    assert_eq!(state.status, "2 audio tracks found.");
}

#[test]
fn toc_failure_means_no_disc() {
    let mut state = CdSourceState::new();
    state.toc_failed("No medium found");
    assert!(!state.disc_present);
    assert!(!state.loading);
    assert_eq!(state.status, "Failed to read disc: No medium found");
}

#[test]
fn flags_follow_events() {
    let mut flags = PlaybackFlags::new();
    for e in [PlayerState::Playing, PlayerState::Seekable, PlayerState::StartPlaying] {
        flags.apply(e);
    }
    assert!(flags.is_playing && !flags.is_paused);
    flags.apply(PlayerState::Paused);
    assert!(flags.is_playing && flags.is_paused);
    flags.apply(PlayerState::Muted);
    assert!(flags.is_muted);
    flags.apply(PlayerState::Unmuted);
    assert!(!flags.is_muted);
    flags.apply(PlayerState::Stopped);
    flags.apply(PlayerState::Unseekable);
    assert!(!flags.is_playing && !flags.is_paused);
}

#[test]
fn titles_become_queue_from_start_index() {
    let titles: Vec<MusicTitleItem> = (1..=3)
        .map(|n| MusicTitleItem {
            id: n,
            name: format!("T{n}"),
            path: format!("/m/{n}.flac"),
            cover: "c.jpg".to_string(),
            artist: "A".to_string(),
            album: "B".to_string(),
        })
        .collect();
    let queue = queue_from_titles(&titles, 1);
    assert_eq!(queue.len(), 2);
    assert_eq!(queue[0].title, "T2");
    assert_eq!(queue[0].path, "/m/2.flac");
    assert_eq!(queue[1].title, "T3");
    assert!(queue_from_titles(&titles, 3).is_empty());
    assert!(queue_from_titles(&titles, 9).is_empty());
}

#[test]
fn icons_and_labels() {
    assert_eq!(source_type_icon(&ConfigSourceType::File), "📁");
    assert_eq!(source_type_icon(&ConfigSourceType::Stream), "📻");
    assert_eq!(source_type_icon(&ConfigSourceType::CD), "💿");
    assert_eq!(source_type_label(&ConfigSourceType::KidsFile), "KidsFile");
    assert_eq!(source_type_label(&ConfigSourceType::CD), "CD");
}

#[test]
fn config_defaults() {
    assert_eq!(default_max_volume(), 100);
    assert_eq!(default_language(), "en");
    let ui = UiConfig::default();
    assert!(!ui.hide_settings);
    assert_eq!(ui.language, "en");
}

#[test]
fn settings_start_from_a_copy() {
    let config = sample_config();
    let mut settings = SettingsState::new(&config);
    assert!(!settings.dirty);
    assert_eq!(settings.config.sources.len(), 2);
    assert_eq!(settings.config.sources[0].stations[0].url, "http://jazz.example/stream");
    assert_eq!(settings.config.audio.device.as_deref(), Some("USB"));
    assert_eq!(settings.new_source_type, ConfigSourceType::File);
    settings.dirty = true;
    settings.new_source_name = "New".to_string();
    settings.confirm_remove_station = Some((0, 0));
    settings.config.sources.clear();
    settings.reset(&config);
    assert!(!settings.dirty);
    assert!(settings.new_source_name.is_empty());
    assert_eq!(settings.confirm_remove_station, None);
    assert_eq!(settings.config.sources.len(), 2);
    assert_eq!(settings.config.ui.language, "de");
}

#[test]
fn clones_keep_values() {
    let config = sample_config();
    let copy = config.clone();
    assert_eq!(copy.sources[0].stations[0].icon, "jazz.png");
    assert_eq!(copy.audio.max_volume, 80);
    let mut state = CdSourceState::new();
    state.toc_loaded(CdInfo { first_track: 1, last_track: 1, tracks: vec![cd_track(1, true)] });
    let copy = state.clone();
    assert_eq!(copy.tracks, state.tracks);
    assert_eq!(copy.status, "1 audio tracks found.");
}
