//! A pull-based producer of the 16-bit samples of one compact-disc track.
//!
//! The source never touches the drive itself: [`CdTrackSource::step`] says
//! whether the next sample is ready, whether the track is over, or which run
//! of sectors must be read first; the caller performs that read and hands the
//! bytes (or the failure) to [`CdTrackSource::complete_read`].
use vstd::prelude::*;
use crate::cd_audio::{span_ok, CdError, CdTrackInfo};

verus! {

/// Size of one raw audio sector in bytes.
pub const SECTOR_SIZE: usize = 2352;

/// Number of 16-bit samples in one sector.
pub const SAMPLES_PER_SECTOR: usize = 1176;

/// Largest number of sectors asked for in one read (about a third of a second).
pub const SECTORS_PER_READ: i32 = 25;

/// Sample rate of disc audio.
pub const CD_SAMPLE_RATE: u32 = 44_100;

/// Channel count of disc audio (stereo).
pub const CD_CHANNELS: u16 = 2;

/// What a track source needs next.
#[derive(Clone, Copy, Debug, PartialEq, Eq)]
pub enum SourceStep {
    /// The next sample of the track.
    Sample(i16),
    /// The buffer is empty: read `sectors` sectors starting at `lba`, then
    /// call `complete_read`.
    Read { lba: i32, sectors: i32 },
    /// Every sample of the track has been handed out.
    End,
}

/// The abstract state of a track source.
pub struct TrackSourceView {
    /// Next sector to read.
    pub next_lba: int,
    /// Past-the-end sector of the track.
    pub end_lba: int,
    /// Samples decoded (or substituted) and not yet handed out, in order.
    pub pending: Seq<i16>,
    /// Samples handed out so far.
    pub yielded: nat,
    /// Samples of the whole track.
    pub total: nat,
}

/// Every sample of the track is either handed out, pending, or in a sector
/// not read yet.
pub open spec fn view_wf(v: TrackSourceView) -> bool {
    &&& v.next_lba <= v.end_lba
    &&& v.total == v.yielded + v.pending.len() + (v.end_lba - v.next_lba) * 1176
}

/// A fresh source for the sectors `start_lba..end_lba`.
pub open spec fn fresh_view(start_lba: int, end_lba: int) -> TrackSourceView {
    TrackSourceView {
        next_lba: start_lba,
        end_lba,
        pending: Seq::empty(),
        yielded: 0,
        total: ((end_lba - start_lba) * 1176) as nat,
    }
}

/// Number of sectors that the next read covers.
pub open spec fn read_size(v: TrackSourceView) -> int {
    if v.end_lba - v.next_lba < 25 {
        v.end_lba - v.next_lba
    } else {
        25
    }
}

/// The sample that two little-endian bytes encode.
pub open spec fn le_sample(lo: u8, hi: u8) -> i16 {
    let v = lo as int + 256 * hi as int;
    (if v >= 32768 {
        v - 65536
    } else {
        v
    }) as i16
}

/// The samples that raw little-endian PCM bytes encode, two bytes each.
pub open spec fn pcm_samples(bytes: Seq<u8>) -> Seq<i16> {
    Seq::new(bytes.len() / 2, |i: int| le_sample(bytes[2 * i], bytes[2 * i + 1]))
}

/// What a step does to the state and what it returns.
pub open spec fn step_post(a: TrackSourceView, b: TrackSourceView, r: SourceStep) -> bool {
    if a.yielded >= a.total {
        r == SourceStep::End && b == a
    } else if a.pending.len() > 0 {
        &&& r == SourceStep::Sample(a.pending[0])
        &&& b == TrackSourceView { pending: a.pending.drop_first(), yielded: a.yielded + 1, ..a }
    } else {
        &&& r == (SourceStep::Read { lba: a.next_lba as i32, sectors: read_size(a) as i32 })
        &&& b == a
    }
}

/// What completing a read does: the sectors are consumed and the buffer holds
/// their samples, or silence of the same length when the read failed.
pub open spec fn read_post(a: TrackSourceView, b: TrackSourceView, data: Option<Seq<u8>>) -> bool {
    let n = read_size(a);
    &&& b.next_lba == a.next_lba + n
    &&& b.end_lba == a.end_lba
    &&& b.yielded == a.yielded
    &&& b.total == a.total
    &&& b.pending == match data {
        Some(bytes) => pcm_samples(bytes),
        None => Seq::new((n * 1176) as nat, |i: int| 0i16),
    }
}

/// Decodes one little-endian 16-bit sample.
pub fn sample_from_le_bytes(lo: u8, hi: u8) -> (r: i16)
    ensures
        r == le_sample(lo, hi),
{
    let v: i32 = lo as i32 + 256 * (hi as i32);
    if v >= 32768 {
        (v - 65536) as i16
    } else {
        v as i16
    }
}

/// Streams the samples of one track.
pub struct CdTrackSource {
    current_lba: i32,
    end_lba: i32,
    buffer: Vec<i16>,
    buffer_pos: usize,
    total_samples: u64,
    samples_yielded: u64,
}

impl View for CdTrackSource {
    type V = TrackSourceView;

    closed spec fn view(&self) -> TrackSourceView {
        TrackSourceView {
            next_lba: self.current_lba as int,
            end_lba: self.end_lba as int,
            pending: self.buffer@.subrange(self.buffer_pos as int, self.buffer@.len() as int),
            yielded: self.samples_yielded as nat,
            total: self.total_samples as nat,
        }
    }
}

impl CdTrackSource {
    /// The internal invariant of the source.
    pub closed spec fn wf(&self) -> bool {
        &&& self.buffer_pos <= self.buffer@.len()
        &&& self.end_lba - self.current_lba <= i32::MAX
        &&& self.total_samples <= 2_147_483_647 * 1176
        &&& view_wf(self@)
    }

    /// A source for the sectors `start_lba..end_lba`.
    pub fn new(start_lba: i32, end_lba: i32) -> (r: Self)
        requires
            span_ok(start_lba as int, end_lba as int),
        ensures
            r.wf(),
            r@ == fresh_view(start_lba as int, end_lba as int),
    {
        let sector_count = (end_lba as i64 - start_lba as i64) as u64;
        assert(sector_count * 1176 <= 2_147_483_647 * 1176) by (nonlinear_arith)
            requires
                sector_count <= 2_147_483_647,
        ;
        let total_samples = sector_count * SAMPLES_PER_SECTOR as u64;
        let r = CdTrackSource {
            current_lba: start_lba,
            end_lba,
            buffer: Vec::new(),
            buffer_pos: 0,
            total_samples,
            samples_yielded: 0,
        };
        assert(r@.pending =~= Seq::<i16>::empty());
        r
    }

    /// A source for an audio track; data tracks and unusable spans are
    /// refused.
    pub fn for_track(track: &CdTrackInfo) -> (r: Result<Self, CdError>)
        ensures
            !track.is_audio ==> r == Err::<Self, CdError>(CdError::NotAudioTrack(track.number)),
            track.is_audio && !span_ok(track.start_lba as int, track.end_lba as int) ==> r
                == Err::<Self, CdError>(CdError::BadTrackAddresses(track.number)),
            r matches Ok(s) ==> {
                &&& track.is_audio
                &&& s.wf()
                &&& s@ == fresh_view(track.start_lba as int, track.end_lba as int)
            },
            track.is_audio && span_ok(track.start_lba as int, track.end_lba as int) ==> r is Ok,
    {
        if !track.is_audio {
            return Err(CdError::NotAudioTrack(track.number));
        }
        let span: i64 = track.end_lba as i64 - track.start_lba as i64;
        if span <= 0 || span > i32::MAX as i64 {
            return Err(CdError::BadTrackAddresses(track.number));
        }
        Ok(CdTrackSource::new(track.start_lba, track.end_lba))
    }

    /// Hands out the next sample, or says that the track is over, or which
    /// sectors must be read before the next sample exists.
    pub fn step(&mut self) -> (r: SourceStep)
        requires
            old(self).wf(),
        ensures
            final(self).wf(),
            step_post(old(self)@, final(self)@, r),
    {
        if self.samples_yielded >= self.total_samples {
            return SourceStep::End;
        }
        if self.buffer_pos < self.buffer.len() {
            let sample = self.buffer[self.buffer_pos];
            self.buffer_pos += 1;
            self.samples_yielded += 1;
            assert(final(self)@.pending =~= old(self)@.pending.drop_first());
            return SourceStep::Sample(sample);
        }
        let remaining = self.end_lba - self.current_lba;
        let sectors = if remaining < SECTORS_PER_READ {
            remaining
        } else {
            SECTORS_PER_READ
        };
        SourceStep::Read { lba: self.current_lba, sectors }
    }

    /// Completes the read that the last step asked for: `Some` with the raw
    /// bytes of those sectors, or `None` when the read failed, in which case
    /// the sectors are skipped and replaced by silence.
    pub fn complete_read(&mut self, data: Option<&[u8]>)
        requires
            old(self).wf(),
            old(self)@.yielded < old(self)@.total,
            old(self)@.pending.len() == 0,
            data matches Some(bytes) ==> bytes@.len() == read_size(old(self)@) * 2352,
        ensures
            final(self).wf(),
            read_post(
                old(self)@,
                final(self)@,
                match data {
                    Some(bytes) => Some(bytes@),
                    None => None,
                },
            ),
    {
        let remaining = self.end_lba - self.current_lba;
        let sectors = if remaining < SECTORS_PER_READ {
            remaining
        } else {
            SECTORS_PER_READ
        };
        let sample_count = sectors as usize * SAMPLES_PER_SECTOR;
        self.buffer.clear();
        match data {
            Some(bytes) => {
                let mut k: usize = 0;
                while k < sample_count
                    invariant
                        sample_count == sectors * 1176,
                        0 < sectors <= 25,
                        bytes@.len() == sample_count * 2,
                        self.current_lba == old(self).current_lba,
                        self.end_lba == old(self).end_lba,
                        self.total_samples == old(self).total_samples,
                        self.samples_yielded == old(self).samples_yielded,
                        k <= sample_count,
                        self.buffer@ =~= pcm_samples(bytes@).subrange(0, k as int),
                    decreases sample_count - k,
                {
                    let s = sample_from_le_bytes(bytes[2 * k], bytes[2 * k + 1]);
                    self.buffer.push(s);
                    k += 1;
                }
                assert(self.buffer@ =~= pcm_samples(bytes@));
            },
            None => {
                let mut k: usize = 0;
                while k < sample_count
                    invariant
                        self.current_lba == old(self).current_lba,
                        self.end_lba == old(self).end_lba,
                        self.total_samples == old(self).total_samples,
                        self.samples_yielded == old(self).samples_yielded,
                        k <= sample_count,
                        self.buffer@ =~= Seq::new(k as nat, |i: int| 0i16),
                    decreases sample_count - k,
                {
                    self.buffer.push(0i16);
                    k += 1;
                }
            },
        }
        self.current_lba = self.current_lba + sectors;
        self.buffer_pos = 0;
        assert(self.buffer@.subrange(0, self.buffer@.len() as int) =~= self.buffer@);
        let ghost a = old(self)@;
        assert((a.end_lba - a.next_lba) * 1176 == sectors * 1176 + (a.end_lba - (a.next_lba
            + sectors)) * 1176) by (nonlinear_arith);
    }

    /// Number of frames (samples per channel) buffered and ready, or `None`
    /// when nothing is buffered.
    pub fn current_span_len(&self) -> (r: Option<usize>)
        requires
            self.wf(),
        ensures
            self@.pending.len() > 0 ==> r == Some((self@.pending.len() / 2) as usize),
            self@.pending.len() == 0 ==> r is None,
    {
        let buffered = self.buffer.len() - self.buffer_pos;
        if buffered > 0 {
            Some(buffered / CD_CHANNELS as usize)
        } else {
            None
        }
    }

    /// Number of samples not handed out yet.
    pub fn remaining_samples(&self) -> (r: u64)
        requires
            self.wf(),
        ensures
            r == self@.total - self@.yielded,
    {
        self.total_samples - self.samples_yielded
    }

    /// Channel count of the stream.
    pub fn channels(&self) -> (r: u16)
        ensures
            r == CD_CHANNELS,
    {
        CD_CHANNELS
    }

    /// Sample rate of the stream.
    pub fn sample_rate(&self) -> (r: u32)
        ensures
            r == CD_SAMPLE_RATE,
    {
        CD_SAMPLE_RATE
    }

    /// Duration of the whole track in nanoseconds, rounded down.
    pub fn total_duration(&self) -> (r: u64)
        requires
            self.wf(),
        ensures
            r == (self@.total / 2) * 1_000_000_000 / 44_100,
    {
        let frames = self.total_samples / CD_CHANNELS as u64;
        let secs = frames / CD_SAMPLE_RATE as u64;
        let rem = frames % CD_SAMPLE_RATE as u64;
        let sub_nanos = rem * 1_000_000_000 / CD_SAMPLE_RATE as u64;
        assert(secs <= 28_633_115) by (nonlinear_arith)
            requires
                frames <= 2_147_483_647 * 1176 / 2,
                secs == frames / 44_100,
        ;
        assert(rem * 1_000_000_000 <= 44_100 * 1_000_000_000) by (nonlinear_arith)
            requires
                rem < 44_100,
        ;
        assert(frames * 1_000_000_000 / 44_100 == secs * 1_000_000_000 + rem * 1_000_000_000
            / 44_100) by (nonlinear_arith)
            requires
                secs == frames / 44_100,
                rem == frames % 44_100,
        ;
        secs * 1_000_000_000 + sub_nanos
    }
}

/// One move of a caller that drives a source: a step and what it returned,
/// or the completion of a read with the bytes read (`None` for a failure).
pub enum SourceMove {
    Step(SourceStep),
    Complete(Option<Seq<u8>>),
}

/// A move is legal from `a` and leads to `b`.
pub open spec fn move_post(a: TrackSourceView, b: TrackSourceView, m: SourceMove) -> bool {
    match m {
        SourceMove::Step(r) => step_post(a, b, r),
        SourceMove::Complete(data) => {
            &&& a.yielded < a.total
            &&& a.pending.len() == 0
            &&& read_post(a, b, data)
        },
    }
}

/// Number of samples that a run of moves handed out.
pub open spec fn samples_handed(moves: Seq<SourceMove>) -> nat
    decreases moves.len(),
{
    if moves.len() == 0 {
        0
    } else {
        samples_handed(moves.drop_last()) + match moves.last() {
            SourceMove::Step(SourceStep::Sample(_)) => 1nat,
            _ => 0nat,
        }
    }
}

/// A legal run of moves.
pub open spec fn legal_run(views: Seq<TrackSourceView>, moves: Seq<SourceMove>) -> bool {
    &&& views.len() == moves.len() + 1
    &&& forall|i: int| 0 <= i < moves.len() ==> move_post(views[i], views[i + 1], #[trigger] moves[i])
}

proof fn lemma_run_counts(views: Seq<TrackSourceView>, moves: Seq<SourceMove>, k: int)
    requires
        legal_run(views, moves),
        views[0].yielded == 0,
        views[0].yielded <= views[0].total,
        0 <= k <= moves.len(),
    ensures
        views[k].yielded == samples_handed(moves.subrange(0, k)),
        views[k].total == views[0].total,
        views[k].yielded <= views[k].total,
    decreases k,
{
    if k > 0 {
        lemma_run_counts(views, moves, k - 1);
        assert(moves.subrange(0, k).drop_last() =~= moves.subrange(0, k - 1));
        assert(move_post(views[k - 1], views[k], moves[k - 1]));
    } else {
        assert(samples_handed(moves.subrange(0, 0)) == 0);
    }
}

/// Driving a fresh source for the sectors `start_lba..end_lba` by legal
/// moves until a step returns `End` hands out exactly 1176 samples per
/// sector: no more, no fewer.
pub proof fn lemma_track_yields_every_sample(
    start_lba: int,
    end_lba: int,
    views: Seq<TrackSourceView>,
    moves: Seq<SourceMove>,
)
    requires
        span_ok(start_lba, end_lba),
        legal_run(views, moves),
        views[0] == fresh_view(start_lba, end_lba),
        moves.len() > 0,
        moves.last() == SourceMove::Step(SourceStep::End),
    ensures
        samples_handed(moves) == (end_lba - start_lba) * 1176,
{
    let n = moves.len() - 1;
    lemma_run_counts(views, moves, n);
    assert(move_post(views[n], views[n + 1], moves[n]));
    assert(moves.drop_last() =~= moves.subrange(0, n));
}

} // verus!
