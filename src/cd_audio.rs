//! The compact-disc side: what the table of contents says about each track,
//! and the decisions taken around the drive's control calls.
use vstd::prelude::*;
use crate::text::{decimal, two_digits, push_decimal, push_digit};

verus! {

/// Pseudo-track number of the lead-out area (end of the recorded data).
pub const CDROM_LEADOUT: u8 = 0xAA;

/// Number of sectors (frames) per second of Red Book audio.
pub const CD_FRAMES_PER_SECOND: u64 = 75;

/// Drive status reported when a disc is present and the tray is closed.
pub const CDS_DISC_OK: i32 = 4;

/// Nanoseconds in one second.
pub const NANOS_PER_SEC: u64 = 1_000_000_000;

/// Information about a single track, as read from the table of contents.
#[derive(Clone, Copy, Debug, PartialEq, Eq)]
pub struct CdTrackInfo {
    /// Track number (1-based).
    pub number: u8,
    /// First sector of the track (LBA).
    pub start_lba: i32,
    /// Past-the-end sector of the track (LBA, exclusive).
    pub end_lba: i32,
    /// Duration of the track in nanoseconds.
    pub duration_nanos: u64,
    /// `true` for an audio track, `false` for a data track.
    pub is_audio: bool,
}

/// Overall information about a disc.
#[derive(Debug)]
pub struct CdInfo {
    /// First track number on the disc (usually 1).
    pub first_track: u8,
    /// Last track number on the disc.
    pub last_track: u8,
    /// Information for each track, in disc order.
    pub tracks: Vec<CdTrackInfo>,
}

/// A copy of a track list.
pub fn copy_tracks(tracks: &Vec<CdTrackInfo>) -> (r: Vec<CdTrackInfo>)
    ensures
        r@ == tracks@,
{
    let mut r: Vec<CdTrackInfo> = Vec::new();
    let mut i: usize = 0;
    while i < tracks.len()
        invariant
            i <= tracks@.len(),
            r@ =~= tracks@.subrange(0, i as int),
        decreases tracks@.len() - i,
    {
        r.push(tracks[i]);
        i += 1;
    }
    assert(r@ =~= tracks@);
    r
}

impl Clone for CdInfo {
    fn clone(&self) -> (r: CdInfo)
        ensures
            r.first_track == self.first_track,
            r.last_track == self.last_track,
            r.tracks@ == self.tracks@,
    {
        CdInfo { first_track: self.first_track, last_track: self.last_track, tracks: copy_tracks(&self.tracks) }
    }
}

/// Why a table of contents or a track cannot be used.
#[derive(Clone, Copy, Debug, PartialEq, Eq)]
pub enum CdError {
    /// The track with this number is a data track.
    NotAudioTrack(u8),
    /// The track with this number does not end after it starts, or spans
    /// more sectors than an `i32` counts.
    BadTrackAddresses(u8),
    /// The drive refused to eject.
    EjectFailed,
}

/// Duration in nanoseconds of `sectors` sectors of audio, rounded down.
pub open spec fn nanos_for_sectors(sectors: int) -> int {
    sectors * 1_000_000_000 / 75
}

/// A track span that the library can stream: it ends after it starts and its
/// sector count fits an `i32`.
pub open spec fn span_ok(start_lba: int, end_lba: int) -> bool {
    start_lba < end_lba && end_lba - start_lba <= i32::MAX
}

impl CdTrackInfo {
    /// Number of sectors of the track, in mathematical integers.
    pub open spec fn sectors(&self) -> int {
        self.end_lba - self.start_lba
    }

    /// Whole seconds of the track's duration.
    pub open spec fn whole_secs(&self) -> nat {
        (self.duration_nanos / 1_000_000_000) as nat
    }

    /// The `M:SS` rendering of a duration: minutes in decimal, then seconds
    /// on two digits.
    pub open spec fn display(&self) -> Seq<char> {
        decimal(self.whole_secs() / 60) + seq![':'] + two_digits(self.whole_secs() % 60)
    }

    /// Number of sectors in this track.
    pub fn sector_count(&self) -> (r: i32)
        requires
            i32::MIN <= self.sectors() <= i32::MAX,
        ensures
            r == self.sectors(),
    {
        self.end_lba - self.start_lba
    }

    /// The duration as `M:SS` (minutes unpadded, seconds on two digits).
    pub fn duration_display(&self) -> (r: String)
        ensures
            r@ == self.display(),
    {
        let total_secs = self.duration_nanos / NANOS_PER_SEC;
        let mins = total_secs / 60;
        let secs = total_secs % 60;
        let mut s = String::new();
        push_decimal(&mut s, mins);
        s.append(":");
        push_digit(&mut s, secs / 10);
        push_digit(&mut s, secs % 10);
        proof {
            reveal_strlit(":");
        }
        assert(s@ =~= self.display());
        s
    }
}

/// The audio tracks of `tracks`, in order.
pub open spec fn audio_only(tracks: Seq<CdTrackInfo>) -> Seq<CdTrackInfo>
    decreases tracks.len(),
{
    if tracks.len() == 0 {
        Seq::empty()
    } else {
        let rest = audio_only(tracks.drop_last());
        if tracks.last().is_audio {
            rest.push(tracks.last())
        } else {
            rest
        }
    }
}

/// Sum of the durations, in nanoseconds, of the audio tracks of `tracks`.
pub open spec fn audio_nanos(tracks: Seq<CdTrackInfo>) -> int
    decreases tracks.len(),
{
    if tracks.len() == 0 {
        0
    } else {
        audio_nanos(tracks.drop_last()) + if tracks.last().is_audio {
            tracks.last().duration_nanos as int
        } else {
            0
        }
    }
}

/// Sum of the sector counts of `tracks`.
pub open spec fn sector_sum(tracks: Seq<CdTrackInfo>) -> int
    decreases tracks.len(),
{
    if tracks.len() == 0 {
        0
    } else {
        sector_sum(tracks.drop_last()) + tracks.last().sectors()
    }
}

proof fn lemma_audio_nanos_nonneg(tracks: Seq<CdTrackInfo>)
    ensures
        audio_nanos(tracks) >= 0,
    decreases tracks.len(),
{
    if tracks.len() > 0 {
        lemma_audio_nanos_nonneg(tracks.drop_last());
    }
}

proof fn lemma_audio_nanos_prefix(tracks: Seq<CdTrackInfo>, i: int)
    requires
        0 <= i <= tracks.len(),
    ensures
        0 <= audio_nanos(tracks.subrange(0, i)) <= audio_nanos(tracks),
    decreases tracks.len() - i,
{
    if i < tracks.len() {
        lemma_audio_nanos_prefix(tracks, i + 1);
        assert(tracks.subrange(0, i + 1).drop_last() =~= tracks.subrange(0, i));
    } else {
        assert(tracks.subrange(0, i) =~= tracks);
    }
    lemma_audio_nanos_nonneg(tracks.subrange(0, i));
}

impl CdInfo {
    /// Return only the audio tracks, in disc order.
    pub fn audio_tracks(&self) -> (r: Vec<&CdTrackInfo>)
        ensures
            r@.len() == audio_only(self.tracks@).len(),
            forall|k: int| 0 <= k < r@.len() ==> *r@[k] == audio_only(self.tracks@)[k],
    {
        let mut r: Vec<&CdTrackInfo> = Vec::new();
        let mut i: usize = 0;
        while i < self.tracks.len()
            invariant
                i <= self.tracks@.len(),
                r@.len() == audio_only(self.tracks@.subrange(0, i as int)).len(),
                forall|k: int|
                    0 <= k < r@.len() ==> *r@[k] == audio_only(self.tracks@.subrange(0, i as int))[k],
            decreases self.tracks@.len() - i,
        {
            assert(self.tracks@.subrange(0, i + 1).drop_last() =~= self.tracks@.subrange(0, i as int));
            if self.tracks[i].is_audio {
                r.push(&self.tracks[i]);
            }
            i += 1;
        }
        assert(self.tracks@.subrange(0, i as int) =~= self.tracks@);
        r
    }

    /// Total duration, in nanoseconds, of all audio tracks.
    pub fn total_duration(&self) -> (r: u64)
        requires
            audio_nanos(self.tracks@) <= u64::MAX,
        ensures
            r == audio_nanos(self.tracks@),
    {
        let mut total: u64 = 0;
        let mut i: usize = 0;
        while i < self.tracks.len()
            invariant
                i <= self.tracks@.len(),
                audio_nanos(self.tracks@) <= u64::MAX,
                total == audio_nanos(self.tracks@.subrange(0, i as int)),
            decreases self.tracks@.len() - i,
        {
            assert(self.tracks@.subrange(0, i + 1).drop_last() =~= self.tracks@.subrange(0, i as int));
            proof {
                lemma_audio_nanos_prefix(self.tracks@, i + 1);
            }
            if self.tracks[i].is_audio {
                total = total + self.tracks[i].duration_nanos;
            }
            i += 1;
        }
        assert(self.tracks@.subrange(0, i as int) =~= self.tracks@);
        total
    }
}

/// One entry of the table of contents, as the drive reports it.
#[derive(Clone, Copy, Debug, PartialEq, Eq)]
pub struct TocEntry {
    /// Track number that was asked for.
    pub track: u8,
    /// Packed byte: `adr` in the low nibble, `ctrl` in the high nibble.
    pub adr_ctrl: u8,
    /// Start address of the track (LBA).
    pub lba: i32,
}

/// A track is audio when the data bit (0x4) of its control nibble is clear.
pub open spec fn control_is_audio(adr_ctrl: u8) -> bool {
    (adr_ctrl >> 4u8) & 0x04u8 == 0
}

/// Classifies a packed `adr`/`ctrl` byte: `true` for an audio track.
pub fn is_audio_control(adr_ctrl: u8) -> (r: bool)
    ensures
        r == control_is_audio(adr_ctrl),
{
    let ctrl = (adr_ctrl >> 4) & 0x0F;
    assert(ctrl & 0x04 == (adr_ctrl >> 4u8) & 0x04u8) by (bit_vector)
        requires
            ctrl == (adr_ctrl >> 4u8) & 0x0Fu8,
    ;
    ctrl & 0x04 == 0
}

/// The track numbers whose entries a table of contents holds: `first..=last`.
pub open spec fn track_numbers(first: u8, last: u8) -> Seq<u8> {
    if first <= last {
        Seq::new((last - first + 1) as nat, |i: int| (first + i) as u8)
    } else {
        Seq::empty()
    }
}

/// The track numbers to query, in order, for a header that names `first`
/// and `last`.
pub fn toc_track_numbers(first: u8, last: u8) -> (r: Vec<u8>)
    ensures
        r@ == track_numbers(first, last),
{
    let mut r: Vec<u8> = Vec::new();
    if first <= last {
        let mut n: u8 = first;
        while n < last
            invariant
                first <= n <= last,
                r@ =~= Seq::new((n - first) as nat, |i: int| (first + i) as u8),
            decreases last - n,
        {
            r.push(n);
            n += 1;
        }
        r.push(last);
    }
    assert(r@ =~= track_numbers(first, last));
    r
}

/// End address of the `i`-th track: the start of the next one, or the
/// lead-out for the last.
pub open spec fn toc_end(entries: Seq<TocEntry>, leadout_lba: i32, i: int) -> i32 {
    if i + 1 < entries.len() {
        entries[i + 1].lba
    } else {
        leadout_lba
    }
}

/// The track that the `i`-th entry describes.
pub open spec fn toc_track(entries: Seq<TocEntry>, leadout_lba: i32, i: int) -> CdTrackInfo {
    let end_lba = toc_end(entries, leadout_lba, i);
    CdTrackInfo {
        number: entries[i].track,
        start_lba: entries[i].lba,
        end_lba,
        duration_nanos: nanos_for_sectors(end_lba - entries[i].lba) as u64,
        is_audio: control_is_audio(entries[i].adr_ctrl),
    }
}

/// The tracks that a table of contents describes, one per entry.
pub open spec fn toc_tracks(entries: Seq<TocEntry>, leadout_lba: i32) -> Seq<CdTrackInfo> {
    Seq::new(entries.len(), |i: int| toc_track(entries, leadout_lba, i))
}

/// Every track of the table of contents has a usable span.
pub open spec fn toc_valid(entries: Seq<TocEntry>, leadout_lba: i32) -> bool {
    forall|i: int|
        0 <= i < entries.len() ==> #[trigger] span_ok(
            entries[i].lba as int,
            toc_end(entries, leadout_lba, i) as int,
        )
}

/// Builds the disc information from the header's track numbers, the entries
/// read for them in order, and the lead-out address.
pub fn cd_info_from_toc(
    first_track: u8,
    last_track: u8,
    entries: &Vec<TocEntry>,
    leadout_lba: i32,
) -> (r: Result<CdInfo, CdError>)
    ensures
        r is Ok <==> toc_valid(entries@, leadout_lba),
        r matches Ok(info) ==> {
            &&& info.first_track == first_track
            &&& info.last_track == last_track
            &&& info.tracks@ == toc_tracks(entries@, leadout_lba)
        },
        r matches Err(e) ==> exists|i: int|
            0 <= i < entries@.len() && !span_ok(
                entries@[i].lba as int,
                toc_end(entries@, leadout_lba, i) as int,
            ) && e == CdError::BadTrackAddresses(entries@[i].track),
{
    let mut tracks: Vec<CdTrackInfo> = Vec::new();
    let n = entries.len();
    let mut i: usize = 0;
    while i < n
        invariant
            n == entries@.len(),
            i <= n,
            tracks@ =~= toc_tracks(entries@, leadout_lba).subrange(0, i as int),
            forall|j: int|
                0 <= j < i ==> #[trigger] span_ok(
                    entries@[j].lba as int,
                    toc_end(entries@, leadout_lba, j) as int,
                ),
        decreases n - i,
    {
        let entry = entries[i];
        let end_lba = if i + 1 < n {
            entries[i + 1].lba
        } else {
            leadout_lba
        };
        assert(end_lba == toc_end(entries@, leadout_lba, i as int));
        let span: i64 = end_lba as i64 - entry.lba as i64;
        if span <= 0 || span > i32::MAX as i64 {
            assert(!span_ok(entries@[i as int].lba as int, toc_end(entries@, leadout_lba, i as int) as int));
            return Err(CdError::BadTrackAddresses(entry.track));
        }
        let sectors = span as u64;
        assert(sectors * 1_000_000_000 <= 2_147_483_647 * 1_000_000_000) by (nonlinear_arith)
            requires
                sectors <= 2_147_483_647,
        ;
        let duration_nanos = sectors * NANOS_PER_SEC / CD_FRAMES_PER_SECOND;
        let track = CdTrackInfo {
            number: entry.track,
            start_lba: entry.lba,
            end_lba,
            duration_nanos,
            is_audio: is_audio_control(entry.adr_ctrl),
        };
        assert(track == toc_track(entries@, leadout_lba, i as int));
        tracks.push(track);
        i += 1;
    }
    assert(tracks@ =~= toc_tracks(entries@, leadout_lba));
    Ok(CdInfo { first_track, last_track, tracks })
}

/// Whether a disc is present, from the drive status query (`None` when the
/// device could not be opened): only the "disc ok, tray closed" status counts.
pub fn disc_present(status: Option<i32>) -> (r: bool)
    ensures
        r == (status == Some(CDS_DISC_OK)),
{
    match status {
        Some(code) => code == CDS_DISC_OK,
        None => false,
    }
}

/// Outcome of an eject, from the return values of the door-unlock call and of
/// the eject call: a failed unlock (the door may already be unlocked) is not
/// fatal, a failed eject is.
pub fn eject_outcome(unlock_ret: i32, eject_ret: i32) -> (r: Result<(), CdError>)
    ensures
        r is Ok <==> eject_ret >= 0,
        r is Err ==> r == Err::<(), CdError>(CdError::EjectFailed),
{
    if eject_ret < 0 {
        Err(CdError::EjectFailed)
    } else {
        Ok(())
    }
}

proof fn lemma_sector_sum_prefix(entries: Seq<TocEntry>, leadout_lba: i32, k: int)
    requires
        1 <= k <= entries.len(),
    ensures
        sector_sum(toc_tracks(entries, leadout_lba).subrange(0, k)) == toc_end(
            entries,
            leadout_lba,
            k - 1,
        ) - entries[0].lba,
    decreases k,
{
    let tracks = toc_tracks(entries, leadout_lba);
    let prefix = tracks.subrange(0, k);
    assert(prefix.drop_last() =~= tracks.subrange(0, k - 1));
    assert(prefix.last() == toc_track(entries, leadout_lba, k - 1));
    assert(sector_sum(prefix) == sector_sum(prefix.drop_last()) + prefix.last().sectors());
    if k > 1 {
        lemma_sector_sum_prefix(entries, leadout_lba, k - 1);
        assert(toc_end(entries, leadout_lba, k - 2) == entries[k - 1].lba);
    } else {
        assert(sector_sum(tracks.subrange(0, 0)) == 0);
    }
}

/// A table of contents with usable spans yields exactly one track per entry,
/// each with the entry's number and the class its control nibble gives, and
/// the sector counts of the tracks add up to the distance from the first
/// track's start to the lead-out.
pub proof fn lemma_toc_tracks_cover_disc(entries: Seq<TocEntry>, leadout_lba: i32)
    requires
        toc_valid(entries, leadout_lba),
        entries.len() > 0,
    ensures
        toc_tracks(entries, leadout_lba).len() == entries.len(),
        forall|i: int|
            0 <= i < entries.len() ==> {
                &&& (#[trigger] toc_tracks(entries, leadout_lba)[i]).number == entries[i].track
                &&& toc_tracks(entries, leadout_lba)[i].is_audio == control_is_audio(
                    entries[i].adr_ctrl,
                )
            },
        sector_sum(toc_tracks(entries, leadout_lba)) == leadout_lba - entries[0].lba,
{
    let tracks = toc_tracks(entries, leadout_lba);
    lemma_sector_sum_prefix(entries, leadout_lba, entries.len() as int);
    assert(tracks.subrange(0, entries.len() as int) =~= tracks);
}

/// Every track of a table of contents with usable spans lasts its sector
/// count divided by 75 seconds, rounded down to the nanosecond.
pub proof fn lemma_toc_durations(entries: Seq<TocEntry>, leadout_lba: i32)
    requires
        toc_valid(entries, leadout_lba),
    ensures
        forall|i: int|
            0 <= i < entries.len() ==> {
                &&& (#[trigger] toc_tracks(entries, leadout_lba)[i]).duration_nanos * 75
                    <= toc_tracks(entries, leadout_lba)[i].sectors() * 1_000_000_000
                &&& toc_tracks(entries, leadout_lba)[i].sectors() * 1_000_000_000
                    < toc_tracks(entries, leadout_lba)[i].duration_nanos * 75 + 75
            },
{
    assert forall|i: int| 0 <= i < entries.len() implies {
        &&& (#[trigger] toc_tracks(entries, leadout_lba)[i]).duration_nanos * 75
            <= toc_tracks(entries, leadout_lba)[i].sectors() * 1_000_000_000
        &&& toc_tracks(entries, leadout_lba)[i].sectors() * 1_000_000_000
            < toc_tracks(entries, leadout_lba)[i].duration_nanos * 75 + 75
    } by {
        let t = toc_tracks(entries, leadout_lba)[i];
        let s = t.sectors();
        assert(span_ok(entries[i].lba as int, toc_end(entries, leadout_lba, i) as int));
        assert(0 < s <= 2_147_483_647);
        let q = s * 1_000_000_000 / 75;
        assert(0 <= q <= 2_147_483_647 * 1_000_000_000 / 75) by (nonlinear_arith)
            requires
                0 < s <= 2_147_483_647,
                q == s * 1_000_000_000 / 75,
        ;
        assert(t.duration_nanos == q);
        assert(q * 75 <= s * 1_000_000_000 < q * 75 + 75) by (nonlinear_arith)
            requires
                q == s * 1_000_000_000 / 75,
        ;
    }
}

} // verus!
