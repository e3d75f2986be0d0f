//! The decisions of the playback engine: the play queue and its cursor, the
//! mute memory, device switching, and the events that a playback session
//! emits. The engine that owns the audio device performs what these return.
//!
//! Volumes are carried as the bit pattern of the sink's 32-bit float gain, so
//! that a remembered volume comes back exactly.
use vstd::prelude::*;
use crate::cd_audio::{audio_only, CdTrackInfo};
use crate::text::{decimal, push_decimal, same_text, split_once, trim, trimmed, index_of_char,
    u64_of, parse_u64};

verus! {

/// Placeholder used where stream metadata gives no value.
pub const UNKNOWN: &'static str = "-";

/// Cursor value that stops a running session: it is past every queue.
pub const STOPPED_CURSOR: usize = usize::MAX;

/// Bit pattern of the gain `0.0`.
pub const ZERO_VOLUME: u32 = 0;

/// Seek step of forward and rewind, in nanoseconds (five seconds).
pub const SEEK_STEP_NANOS: u128 = 5_000_000_000;

/// What is playing now.
#[derive(Debug)]
pub struct TitleChanged {
    pub artist: String,
    pub album: String,
    pub title: String,
    pub cover: String,
}

impl Clone for TitleChanged {
    fn clone(&self) -> (r: TitleChanged)
        ensures
            r == *self,
    {
        TitleChanged {
            artist: self.artist.clone(),
            album: self.album.clone(),
            title: self.title.clone(),
            cover: self.cover.clone(),
        }
    }
}

/// Events about the player's state.
#[derive(Clone, Copy, Debug, PartialEq, Eq, Structural)]
pub enum PlayerState {
    Playing,
    Paused,
    Stopped,
    Muted,
    Unmuted,
    Seekable,
    Unseekable,
    StartPlaying,
}

/// A file that can be appended to the play queue.
#[derive(Debug)]
pub struct SoundItem {
    pub artist: String,
    pub album: String,
    pub title: String,
    pub path: String,
    pub cover: String,
}

impl Clone for SoundItem {
    fn clone(&self) -> (r: SoundItem)
        ensures
            r == *self,
    {
        SoundItem {
            artist: self.artist.clone(),
            album: self.album.clone(),
            title: self.title.clone(),
            path: self.path.clone(),
            cover: self.cover.clone(),
        }
    }
}

/// A gain is zero when its bit pattern is `+0.0` or `-0.0`.
pub open spec fn volume_is_zero(bits: u32) -> bool {
    bits == 0 || bits == 0x8000_0000
}

/// Mute toggle: from the remembered volume and the sink's current volume,
/// the volume to set, the volume to remember, and the event.
pub open spec fn mute_next(saved: u32, current: u32) -> (u32, u32, PlayerState) {
    if !volume_is_zero(current) {
        (ZERO_VOLUME, current, PlayerState::Muted)
    } else {
        (saved, ZERO_VOLUME, PlayerState::Unmuted)
    }
}

/// Muting a non-zero volume and then toggling again sets back exactly the
/// volume from before, and the remembered volume is cleared.
pub proof fn lemma_mute_round_trip(saved: u32, volume: u32)
    requires
        !volume_is_zero(volume),
    ensures
        ({
            let (v1, s1, e1) = mute_next(saved, volume);
            let (v2, s2, e2) = mute_next(s1, v1);
            &&& v1 == ZERO_VOLUME
            &&& e1 == PlayerState::Muted
            &&& v2 == volume
            &&& e2 == PlayerState::Unmuted
            &&& s2 == ZERO_VOLUME
        }),
{
}

/// Cursor after "previous": two back (the advance already made for the
/// current item, and one more), but not below zero.
pub open spec fn cursor_back(cursor: usize) -> usize {
    if cursor >= 2 {
        (cursor - 2) as usize
    } else {
        0
    }
}

/// The abstract state of the engine.
pub struct EngineView {
    pub queue: Seq<SoundItem>,
    pub cursor: usize,
    pub mute_volume: u32,
}

/// The engine's shared state: the play queue, the cursor that sessions
/// advance, and the volume remembered while muted.
pub struct EngineState {
    queue: Vec<SoundItem>,
    cursor: usize,
    mute_volume: u32,
}

impl View for EngineState {
    type V = EngineView;

    closed spec fn view(&self) -> EngineView {
        EngineView { queue: self.queue@, cursor: self.cursor, mute_volume: self.mute_volume }
    }
}

impl EngineState {
    /// An empty queue, the cursor at its start, nothing remembered.
    pub fn new() -> (r: Self)
        ensures
            r@.queue.len() == 0,
            r@.cursor == 0,
            r@.mute_volume == ZERO_VOLUME,
    {
        EngineState { queue: Vec::new(), cursor: 0, mute_volume: ZERO_VOLUME }
    }

    /// The position of the cursor.
    pub fn cursor(&self) -> (r: usize)
        ensures
            r == self@.cursor,
    {
        self.cursor
    }

    /// Number of items in the queue.
    pub fn queue_len(&self) -> (r: usize)
        ensures
            r == self@.queue.len(),
    {
        self.queue.len()
    }

    /// Adds items to the end of the queue.
    pub fn append(&mut self, items: Vec<SoundItem>)
        ensures
            final(self)@ == (EngineView { queue: old(self)@.queue + items@, ..old(self)@ }),
    {
        let mut items = items;
        self.queue.append(&mut items);
    }

    /// Stops every session: the cursor goes past any queue.
    pub fn stop(&mut self) -> (r: PlayerState)
        ensures
            final(self)@ == (EngineView { cursor: STOPPED_CURSOR, ..old(self)@ }),
            r == PlayerState::Stopped,
    {
        self.cursor = STOPPED_CURSOR;
        PlayerState::Stopped
    }

    /// Empties the queue and puts the cursor back at its start.
    pub fn clear(&mut self)
        ensures
            final(self)@ == (EngineView { queue: Seq::empty(), cursor: 0, ..old(self)@ }),
    {
        self.queue.clear();
        self.cursor = 0;
        assert(self.queue@ =~= Seq::<SoundItem>::empty());
    }

    /// Moves the cursor back for "previous", clamped at zero.
    pub fn skip_previous(&mut self)
        ensures
            final(self)@ == (EngineView { cursor: cursor_back(old(self)@.cursor), ..old(self)@ }),
            old(self)@.cursor <= 1 ==> final(self)@.cursor == 0,
    {
        self.cursor = if self.cursor >= 2 {
            self.cursor - 2
        } else {
            0
        };
    }

    /// Places the cursor at `index`, as a CD session does when it starts.
    pub fn seek_cursor(&mut self, index: usize)
        ensures
            final(self)@ == (EngineView { cursor: index, ..old(self)@ }),
    {
        self.cursor = index;
    }

    /// Claims the next position below `count`: returns the cursor and moves
    /// it on, or returns `None` once the cursor has reached `count`.
    pub fn claim_index(&mut self, count: usize) -> (r: Option<usize>)
        ensures
            old(self)@.cursor >= count ==> r is None && final(self)@ == old(self)@,
            old(self)@.cursor < count ==> {
                &&& r == Some(old(self)@.cursor)
                &&& final(self)@ == (EngineView { cursor: (old(self)@.cursor + 1) as usize, ..old(self)@ })
            },
    {
        let current = self.cursor;
        if current >= count {
            return None;
        }
        self.cursor = current + 1;
        Some(current)
    }

    /// Claims the next queue item for a file session.
    pub fn next_queue_item(&mut self) -> (r: Option<SoundItem>)
        ensures
            old(self)@.cursor >= old(self)@.queue.len() ==> r is None && final(self)@ == old(self)@,
            old(self)@.cursor < old(self)@.queue.len() ==> {
                &&& r == Some(old(self)@.queue[old(self)@.cursor as int])
                &&& final(self)@ == (EngineView { cursor: (old(self)@.cursor + 1) as usize, ..old(self)@ })
            },
    {
        let len = self.queue.len();
        match self.claim_index(len) {
            Some(i) => Some(self.queue[i].clone()),
            None => None,
        }
    }

    /// Mute toggle, given the sink's current volume: returns the volume to
    /// set and the event to emit.
    pub fn mute(&mut self, current_volume: u32) -> (r: (u32, PlayerState))
        ensures
            ({
                let (v, saved, e) = mute_next(old(self)@.mute_volume, current_volume);
                &&& r == (v, e)
                &&& final(self)@ == (EngineView { mute_volume: saved, ..old(self)@ })
            }),
    {
        if !(current_volume == 0 || current_volume == 0x8000_0000) {
            self.mute_volume = current_volume;
            (ZERO_VOLUME, PlayerState::Muted)
        } else {
            let restored = self.mute_volume;
            self.mute_volume = ZERO_VOLUME;
            (restored, PlayerState::Unmuted)
        }
    }

    /// Before the output device is replaced: stops and clears playback, and
    /// returns the volume that the new sink must get, the one read from the
    /// old sink.
    pub fn switch_device(&mut self, current_volume: u32) -> (r: u32)
        ensures
            r == current_volume,
            final(self)@ == (EngineView { queue: Seq::empty(), cursor: 0, ..old(self)@ }),
    {
        self.stop();
        self.clear();
        current_volume
    }
}

/// Events at the start of a file or CD session.
pub open spec fn session_start_events() -> Seq<PlayerState> {
    seq![PlayerState::Playing, PlayerState::Seekable, PlayerState::StartPlaying]
}

/// Events at the end of a file or CD session.
pub open spec fn session_end_events() -> Seq<PlayerState> {
    seq![PlayerState::Stopped, PlayerState::Unseekable]
}

/// The events that a file or CD session emits when it starts.
pub fn session_started() -> (r: Vec<PlayerState>)
    ensures
        r@ == session_start_events(),
{
    let r = vec![PlayerState::Playing, PlayerState::Seekable, PlayerState::StartPlaying];
    assert(r@ =~= session_start_events());
    r
}

/// The events that a file or CD session emits when its queue is exhausted.
pub fn session_finished() -> (r: Vec<PlayerState>)
    ensures
        r@ == session_end_events(),
{
    let r = vec![PlayerState::Stopped, PlayerState::Unseekable];
    assert(r@ =~= session_end_events());
    r
}

/// The events that a stream session emits when it starts.
pub fn stream_started() -> (r: Vec<PlayerState>)
    ensures
        r@ == seq![PlayerState::Playing, PlayerState::StartPlaying],
{
    let r = vec![PlayerState::Playing, PlayerState::StartPlaying];
    assert(r@ =~= seq![PlayerState::Playing, PlayerState::StartPlaying]);
    r
}

/// The event for the pause toggle, given whether the sink is paused: a paused
/// sink resumes (`Playing`), a playing one pauses (`Paused`).
pub fn pause_toggle(sink_paused: bool) -> (r: PlayerState)
    ensures
        sink_paused ==> r == PlayerState::Playing,
        !sink_paused ==> r == PlayerState::Paused,
{
    if sink_paused {
        PlayerState::Playing
    } else {
        PlayerState::Paused
    }
}

/// The title event for a queue item.
pub fn item_title(item: &SoundItem) -> (r: TitleChanged)
    ensures
        r.artist == item.artist,
        r.album == item.album,
        r.title == item.title,
        r.cover == item.cover,
{
    TitleChanged {
        artist: item.artist.clone(),
        album: item.album.clone(),
        title: item.title.clone(),
        cover: item.cover.clone(),
    }
}

/// The title of a disc track: `Track <number>`.
pub open spec fn cd_title(number: u8) -> Seq<char> {
    "Track "@ + decimal(number as nat)
}

/// The title event for a disc track: album "Audio CD", no artist, no cover.
pub fn cd_track_title(track: &CdTrackInfo) -> (r: TitleChanged)
    ensures
        r.artist@ == Seq::<char>::empty(),
        r.album@ == "Audio CD"@,
        r.title@ == cd_title(track.number),
        r.cover@ == Seq::<char>::empty(),
{
    let mut title = String::from_str("Track ");
    push_decimal(&mut title, track.number as u64);
    TitleChanged {
        artist: String::new(),
        album: String::from_str("Audio CD"),
        title,
        cover: String::new(),
    }
}

/// The audio tracks of a track list, in order: what a CD session plays.
pub fn audio_track_list(tracks: &Vec<CdTrackInfo>) -> (r: Vec<CdTrackInfo>)
    ensures
        r@ == audio_only(tracks@),
{
    let mut r: Vec<CdTrackInfo> = Vec::new();
    let mut i: usize = 0;
    while i < tracks.len()
        invariant
            i <= tracks@.len(),
            r@ == audio_only(tracks@.subrange(0, i as int)),
        decreases tracks@.len() - i,
    {
        assert(tracks@.subrange(0, i + 1).drop_last() =~= tracks@.subrange(0, i as int));
        if tracks[i].is_audio {
            r.push(tracks[i]);
        }
        i += 1;
    }
    assert(tracks@.subrange(0, i as int) =~= tracks@);
    r
}

/// Artist and title in a stream title of the form "Artist - Title": split at
/// the first `-` (no `-`: the whole text is the artist and the title is
/// unknown), and drop from the title everything from its first `'` on; both
/// are trimmed.
pub open spec fn stream_artist_title(s: Seq<char>) -> (Seq<char>, Seq<char>) {
    let (artist, title) = match split_once(s, '-') {
        Some(parts) => parts,
        None => (s, UNKNOWN@),
    };
    let kept = match split_once(title, '\'') {
        Some(parts) => parts.0,
        None => title,
    };
    (trim(artist), trim(kept))
}

/// The text before the first `c` in `s`, and the text after it, if any.
fn split_at_char(s: &str, c: char) -> (r: Option<(String, String)>)
    ensures
        r matches Some(parts) ==> split_once(s@, c) == Some((parts.0@, parts.1@)),
        r is None ==> split_once(s@, c) is None,
{
    match index_of_char(s, c) {
        Some(i) => {
            proof {
                crate::text::lemma_find_char_bounds(s@, c);
            }
            let n = s.unicode_len();
            let before = String::from_str(s.substring_char(0, i));
            let after = String::from_str(s.substring_char(i + 1, n));
            Some((before, after))
        },
        None => None,
    }
}

/// The title event for stream metadata: `stream_title` is the embedded title
/// (`None` when the metadata has none or could not be read), `icon` the
/// station's icon.
pub fn stream_title_change(stream_title: Option<&str>, icon: &str) -> (r: TitleChanged)
    ensures
        ({
            let text = match stream_title {
                Some(t) => t@,
                None => UNKNOWN@,
            };
            &&& r.artist@ == stream_artist_title(text).0
            &&& r.title@ == stream_artist_title(text).1
            &&& r.album@ == UNKNOWN@
            &&& r.cover@ == icon@
        }),
{
    let text: &str = match stream_title {
        Some(t) => t,
        None => UNKNOWN,
    };
    let (artist, title) = match split_at_char(text, '-') {
        Some(parts) => parts,
        None => (String::from_str(text), String::from_str(UNKNOWN)),
    };
    let kept = match split_at_char(title.as_str(), '\'') {
        Some(parts) => parts.0,
        None => title,
    };
    TitleChanged {
        artist: trimmed(artist.as_str()),
        album: String::from_str(UNKNOWN),
        title: trimmed(kept.as_str()),
        cover: String::from_str(icon),
    }
}

/// The name under which the system's default output device is listed.
pub const DEFAULT_DEVICE: &'static str = "Default";

/// Bitrate assumed, in kilobits per second, when a stream advertises none.
pub const DEFAULT_BITRATE: &'static str = "256";

/// Whether a requested output device means the system default: no name, an
/// empty name, or "Default".
pub fn uses_default_device(name: Option<&str>) -> (r: bool)
    ensures
        r == match name {
            None => true,
            Some(n) => n@.len() == 0 || n@ == DEFAULT_DEVICE@,
        },
{
    match name {
        None => true,
        Some(n) => n.unicode_len() == 0 || same_text(n, DEFAULT_DEVICE),
    }
}

/// The list of output devices offered to the user: the default entry first,
/// then the names that the audio host reported, in its order.
pub fn device_list(found: Vec<String>) -> (r: Vec<String>)
    ensures
        r@.len() == found@.len() + 1,
        r@[0]@ == DEFAULT_DEVICE@,
        forall|i: int| 0 <= i < found@.len() ==> r@[i + 1] == found@[i],
{
    let mut r: Vec<String> = Vec::new();
    r.push(String::from_str(DEFAULT_DEVICE));
    let mut rest = found;
    r.append(&mut rest);
    r
}

/// Index of the first device whose name is `requested`.
pub fn find_device(names: &Vec<String>, requested: &str) -> (r: Option<usize>)
    ensures
        r matches Some(i) ==> i < names@.len() && names@[i as int]@ == requested@ && forall|k: int|
            0 <= k < i ==> names@[k]@ != requested@,
        r is None ==> forall|k: int| 0 <= k < names@.len() ==> names@[k]@ != requested@,
{
    let mut i: usize = 0;
    while i < names.len()
        invariant
            i <= names@.len(),
            forall|k: int| 0 <= k < i ==> names@[k]@ != requested@,
        decreases names@.len() - i,
    {
        if same_text(names[i].as_str(), requested) {
            return Some(i);
        }
        i += 1;
    }
    None
}

/// The bitrate, in kilobits per second, that a stream's `Icy-Br` header gives
/// (`None` for a missing header, which counts as 256); `None` when the value
/// is no decimal `u64`.
pub fn stream_bitrate(header: Option<&str>) -> (r: Option<u64>)
    ensures
        r == u64_of(
            match header {
                Some(h) => h@,
                None => DEFAULT_BITRATE@,
            },
        ),
{
    match header {
        Some(h) => parse_u64(h),
        None => parse_u64(DEFAULT_BITRATE),
    }
}

/// Bytes to buffer before a stream plays, about five seconds: the bitrate in
/// kilobits per second, over eight, times 1024, times five; `None` when that
/// does not fit a `u64`.
pub fn prefetch_bytes(bitrate: u64) -> (r: Option<u64>)
    ensures
        (bitrate / 8) * 1024 * 5 <= u64::MAX ==> r == Some(((bitrate / 8) * 1024 * 5) as u64),
        (bitrate / 8) * 1024 * 5 > u64::MAX ==> r is None,
{
    let kilobytes = bitrate / 8;
    if kilobytes > u64::MAX / 5120 {
        return None;
    }
    Some(kilobytes * 1024 * 5)
}

/// Position to seek to for "forward": five seconds on; `None` when that is
/// past what a `u128` of nanoseconds holds.
pub fn forward_target(position_nanos: u128) -> (r: Option<u128>)
    ensures
        position_nanos + SEEK_STEP_NANOS <= u128::MAX ==> r == Some(
            (position_nanos + SEEK_STEP_NANOS) as u128,
        ),
        position_nanos + SEEK_STEP_NANOS > u128::MAX ==> r is None,
{
    position_nanos.checked_add(SEEK_STEP_NANOS)
}

/// Position to seek to for "rewind": five seconds back, only when the
/// position is past five seconds; otherwise no seek.
pub fn rewind_target(position_nanos: u128) -> (r: Option<u128>)
    ensures
        position_nanos > SEEK_STEP_NANOS ==> r == Some((position_nanos - SEEK_STEP_NANOS) as u128),
        position_nanos <= SEEK_STEP_NANOS ==> r is None,
{
    if position_nanos > SEEK_STEP_NANOS {
        Some(position_nanos - SEEK_STEP_NANOS)
    } else {
        None
    }
}

} // verus!
