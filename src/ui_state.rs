//! State that the user interface keeps about the core: the CD page, the
//! settings editor, the transport flags folded from player events, and the
//! library items that become queue entries.
use vstd::prelude::*;
use crate::cd_audio::{audio_only, copy_tracks, CdInfo, CdTrackInfo};
use crate::config::{same_config, Config, ConfigSourceType};
use crate::player::{PlayerState, SoundItem};
use crate::text::{decimal, push_decimal};

verus! {

/// Icon shown before a source's name.
pub fn source_type_icon(source_type: &ConfigSourceType) -> (r: &'static str)
    ensures
        r@ == match source_type {
            ConfigSourceType::File | ConfigSourceType::KidsFile => "📁"@,
            ConfigSourceType::Stream => "📻"@,
            ConfigSourceType::CD => "💿"@,
        },
{
    match source_type {
        ConfigSourceType::File | ConfigSourceType::KidsFile => "📁",
        ConfigSourceType::Stream => "📻",
        ConfigSourceType::CD => "💿",
    }
}

/// Name of a source kind in the settings editor.
pub fn source_type_label(source_type: &ConfigSourceType) -> (r: &'static str)
    ensures
        r@ == match source_type {
            ConfigSourceType::File => "File"@,
            ConfigSourceType::Stream => "Stream"@,
            ConfigSourceType::CD => "CD"@,
            ConfigSourceType::KidsFile => "KidsFile"@,
        },
{
    match source_type {
        ConfigSourceType::File => "File",
        ConfigSourceType::Stream => "Stream",
        ConfigSourceType::CD => "CD",
        ConfigSourceType::KidsFile => "KidsFile",
    }
}

/// State of the CD source page.
#[derive(Debug)]
pub struct CdSourceState {
    /// The loaded track listing, if any.
    pub tracks: Vec<CdTrackInfo>,
    /// Whether a table-of-contents read is in progress.
    pub loading: bool,
    /// Status or error message to display.
    pub status: String,
    /// Whether a disc was detected on the last check.
    pub disc_present: bool,
}

impl Clone for CdSourceState {
    fn clone(&self) -> (r: CdSourceState)
        ensures
            r.tracks@ == self.tracks@,
            r.loading == self.loading,
            r.status == self.status,
            r.disc_present == self.disc_present,
    {
        CdSourceState {
            tracks: copy_tracks(&self.tracks),
            loading: self.loading,
            status: self.status.clone(),
            disc_present: self.disc_present,
        }
    }
}

/// Status shown after a table of contents was read.
pub open spec fn tracks_found_status(audio_count: nat) -> Seq<char> {
    decimal(audio_count) + " audio tracks found."@
}

impl CdSourceState {
    /// No tracks, not loading, no status, no disc.
    pub fn new() -> (r: Self)
        ensures
            r.tracks@.len() == 0,
            !r.loading,
            r.status@.len() == 0,
            !r.disc_present,
    {
        CdSourceState { tracks: Vec::new(), loading: false, status: String::new(), disc_present: false }
    }

    /// A table-of-contents read has started: the old listing is dropped.
    pub fn start_loading(&mut self)
        ensures
            final(self).tracks@.len() == 0,
            final(self).loading,
            final(self).status@ == "Reading disc…"@,
            final(self).disc_present == old(self).disc_present,
    {
        self.loading = true;
        self.status = String::from_str("Reading disc…");
        self.tracks = Vec::new();
    }

    /// The table of contents was read: the disc is present and its tracks are
    /// listed.
    pub fn toc_loaded(&mut self, info: CdInfo)
        ensures
            final(self).tracks@ == info.tracks@,
            !final(self).loading,
            final(self).disc_present,
            final(self).status@ == tracks_found_status(audio_only(info.tracks@).len()),
    {
        let mut audio_count: u64 = 0;
        let mut i: usize = 0;
        while i < info.tracks.len()
            invariant
                i <= info.tracks@.len(),
                audio_count == audio_only(info.tracks@.subrange(0, i as int)).len(),
                audio_count <= i,
            decreases info.tracks@.len() - i,
        {
            assert(info.tracks@.subrange(0, i + 1).drop_last() =~= info.tracks@.subrange(0, i as int));
            if info.tracks[i].is_audio {
                audio_count += 1;
            }
            i += 1;
        }
        assert(info.tracks@.subrange(0, i as int) =~= info.tracks@);
        let mut status = String::new();
        push_decimal(&mut status, audio_count);
        status.append(" audio tracks found.");
        self.loading = false;
        self.disc_present = true;
        self.status = status;
        self.tracks = info.tracks;
    }

    /// The table of contents could not be read: no disc, no tracks, and the
    /// error in the status.
    pub fn toc_failed(&mut self, message: &str)
        ensures
            final(self).tracks@.len() == 0,
            !final(self).loading,
            !final(self).disc_present,
            final(self).status@ == "Failed to read disc: "@ + message@,
    {
        self.loading = false;
        self.disc_present = false;
        self.tracks = Vec::new();
        self.status = String::from_str("Failed to read disc: ");
        self.status.append(message);
    }

    /// The tray was ejected: no disc, no tracks.
    pub fn ejected(&mut self)
        ensures
            final(self).tracks@.len() == 0,
            !final(self).disc_present,
            final(self).loading == old(self).loading,
            final(self).status@ == "Disc ejected. Insert a CD and press Refresh."@,
    {
        self.tracks = Vec::new();
        self.disc_present = false;
        self.status = String::from_str("Disc ejected. Insert a CD and press Refresh.");
    }

    /// Ejecting failed: only the status changes.
    pub fn eject_failed(&mut self, message: &str)
        ensures
            final(self).tracks@ == old(self).tracks@,
            final(self).disc_present == old(self).disc_present,
            final(self).loading == old(self).loading,
            final(self).status@ == "Eject failed: "@ + message@,
    {
        self.status = String::from_str("Eject failed: ");
        self.status.append(message);
    }
}

/// Transport flags that the interface folds from player events.
#[derive(Clone, Copy, Debug, PartialEq, Eq, Structural)]
pub struct PlaybackFlags {
    pub is_playing: bool,
    pub is_paused: bool,
    pub is_muted: bool,
}

/// The flags after one event.
pub open spec fn flags_after(f: PlaybackFlags, e: PlayerState) -> PlaybackFlags {
    match e {
        PlayerState::Playing | PlayerState::StartPlaying => PlaybackFlags {
            is_playing: true,
            is_paused: false,
            ..f
        },
        PlayerState::Paused => PlaybackFlags { is_paused: true, ..f },
        PlayerState::Stopped => PlaybackFlags { is_playing: false, is_paused: false, ..f },
        PlayerState::Muted => PlaybackFlags { is_muted: true, ..f },
        PlayerState::Unmuted => PlaybackFlags { is_muted: false, ..f },
        PlayerState::Seekable | PlayerState::Unseekable => f,
    }
}

impl PlaybackFlags {
    /// Nothing playing, nothing paused, not muted.
    pub fn new() -> (r: Self)
        ensures
            !r.is_playing && !r.is_paused && !r.is_muted,
    {
        PlaybackFlags { is_playing: false, is_paused: false, is_muted: false }
    }

    /// Folds one event into the flags.
    pub fn apply(&mut self, event: PlayerState)
        ensures
            *final(self) == flags_after(*old(self), event),
    {
        match event {
            PlayerState::Playing | PlayerState::StartPlaying => {
                self.is_playing = true;
                self.is_paused = false;
            },
            PlayerState::Paused => {
                self.is_paused = true;
            },
            PlayerState::Stopped => {
                self.is_playing = false;
                self.is_paused = false;
            },
            PlayerState::Muted => {
                self.is_muted = true;
            },
            PlayerState::Unmuted => {
                self.is_muted = false;
            },
            PlayerState::Seekable | PlayerState::Unseekable => {},
        }
    }
}

/// An artist or album of the music library.
#[derive(Debug)]
pub struct MusicItem {
    pub id: i32,
    pub name: String,
    pub cover: String,
}

impl Clone for MusicItem {
    fn clone(&self) -> (r: MusicItem)
        ensures
            r == *self,
    {
        MusicItem { id: self.id, name: self.name.clone(), cover: self.cover.clone() }
    }
}

/// A title of the music library.
#[derive(Debug)]
pub struct MusicTitleItem {
    pub id: i32,
    pub name: String,
    pub path: String,
    pub cover: String,
    pub artist: String,
    pub album: String,
}

impl Clone for MusicTitleItem {
    fn clone(&self) -> (r: MusicTitleItem)
        ensures
            r == *self,
    {
        MusicTitleItem {
            id: self.id,
            name: self.name.clone(),
            path: self.path.clone(),
            cover: self.cover.clone(),
            artist: self.artist.clone(),
            album: self.album.clone(),
        }
    }
}

/// An album shown on the kids page.
#[derive(Debug)]
pub struct KidsAlbumItem {
    pub id: i32,
    pub album_name: String,
    pub artist_name: String,
    pub cover: String,
}

impl Clone for KidsAlbumItem {
    fn clone(&self) -> (r: KidsAlbumItem)
        ensures
            r == *self,
    {
        KidsAlbumItem {
            id: self.id,
            album_name: self.album_name.clone(),
            artist_name: self.artist_name.clone(),
            cover: self.cover.clone(),
        }
    }
}

/// A title found while scanning, before it is stored.
#[derive(Debug)]
pub struct NewMusicTitle {
    pub name: String,
    pub path: String,
    pub cover: String,
    pub artist: String,
    pub album: String,
    pub source: String,
    pub track: u32,
}

/// The queue entry for a library title.
pub open spec fn sound_item_of(t: MusicTitleItem) -> SoundItem {
    SoundItem { artist: t.artist, album: t.album, title: t.name, path: t.path, cover: t.cover }
}

/// Queue entries for `titles`, from `start_index` on, in order.
pub fn queue_from_titles(titles: &Vec<MusicTitleItem>, start_index: usize) -> (r: Vec<SoundItem>)
    ensures
        start_index >= titles@.len() ==> r@.len() == 0,
        start_index < titles@.len() ==> r@.len() == titles@.len() - start_index,
        forall|k: int| 0 <= k < r@.len() ==> r@[k] == sound_item_of(titles@[k + start_index]),
{
    let mut r: Vec<SoundItem> = Vec::new();
    let mut i: usize = start_index;
    while i < titles.len()
        invariant
            start_index <= i,
            start_index < titles@.len() ==> i <= titles@.len(),
            start_index >= titles@.len() ==> i == start_index,
            r@.len() == i - start_index,
            forall|k: int| 0 <= k < r@.len() ==> r@[k] == sound_item_of(titles@[k + start_index]),
        decreases titles@.len() - i,
    {
        let t = &titles[i];
        r.push(SoundItem {
            artist: t.artist.clone(),
            album: t.album.clone(),
            title: t.name.clone(),
            path: t.path.clone(),
            cover: t.cover.clone(),
        });
        i += 1;
    }
    r
}

/// State of the settings editor.
#[derive(Debug)]
pub struct SettingsState {
    /// Editable copy of the configuration.
    pub config: Config,
    /// Whether the editable copy differs from the saved configuration.
    pub dirty: bool,
    /// Message after the last save, and whether the save succeeded.
    pub save_message: Option<(String, bool)>,
    /// Source whose station list is expanded.
    pub expanded_source: Option<usize>,
    /// Fields of a source being added.
    pub adding_source: bool,
    pub new_source_name: String,
    pub new_source_path: String,
    pub new_source_type: ConfigSourceType,
    /// Fields of a station being added, for the source at this index.
    pub adding_station_for: Option<usize>,
    pub new_station_name: String,
    pub new_station_url: String,
    pub new_station_icon: String,
    /// Source awaiting confirmation of its removal.
    pub confirm_remove_source: Option<usize>,
    /// Station awaiting confirmation of its removal (source, station).
    pub confirm_remove_station: Option<(usize, usize)>,
}

/// The editor shows a fresh copy of `config` with nothing in progress.
pub open spec fn settings_fresh(s: &SettingsState, config: &Config) -> bool {
    &&& same_config(&s.config, config)
    &&& !s.dirty
    &&& s.save_message is None
    &&& s.expanded_source is None
    &&& !s.adding_source
    &&& s.new_source_name@.len() == 0
    &&& s.new_source_path@.len() == 0
    &&& s.new_source_type == ConfigSourceType::File
    &&& s.adding_station_for is None
    &&& s.new_station_name@.len() == 0
    &&& s.new_station_url@.len() == 0
    &&& s.new_station_icon@.len() == 0
    &&& s.confirm_remove_source is None
    &&& s.confirm_remove_station is None
}

impl SettingsState {
    /// An editor on a copy of `config`.
    pub fn new(config: &Config) -> (r: Self)
        ensures
            settings_fresh(&r, config),
    {
        SettingsState {
            config: config.clone(),
            dirty: false,
            save_message: None,
            expanded_source: None,
            adding_source: false,
            new_source_name: String::new(),
            new_source_path: String::new(),
            new_source_type: ConfigSourceType::File,
            adding_station_for: None,
            new_station_name: String::new(),
            new_station_url: String::new(),
            new_station_icon: String::new(),
            confirm_remove_source: None,
            confirm_remove_station: None,
        }
    }

    /// Drops every edit and goes back to a copy of `config`.
    pub fn reset(&mut self, config: &Config)
        ensures
            settings_fresh(final(self), config),
    {
        self.config = config.clone();
        self.dirty = false;
        self.save_message = None;
        self.expanded_source = None;
        self.adding_source = false;
        self.new_source_name = String::new();
        self.new_source_path = String::new();
        self.new_source_type = ConfigSourceType::File;
        self.adding_station_for = None;
        self.new_station_name = String::new();
        self.new_station_url = String::new();
        self.new_station_icon = String::new();
        self.confirm_remove_source = None;
        self.confirm_remove_station = None;
    }
}

} // verus!
