use homeplayer::cd_audio::{CdError, CdTrackInfo};
use homeplayer::track_source::{sample_from_le_bytes, CdTrackSource, SourceStep};

/// Drives a source to its end, reading with `read` (which may fail), and
/// returns the samples and the reads that were asked for.
fn drain(
    source: &mut CdTrackSource,
    mut read: impl FnMut(i32, i32) -> Option<Vec<u8>>,
) -> (Vec<i16>, Vec<(i32, i32)>) {
    let mut samples = Vec::new();
    let mut reads = Vec::new();
    loop {
        match source.step() {
            SourceStep::Sample(s) => samples.push(s),
            SourceStep::End => break,
            SourceStep::Read { lba, sectors } => {
                reads.push((lba, sectors));
                let data = read(lba, sectors);
                source.complete_read(data.as_deref());
            }
        }
    }
    (samples, reads)
}

fn ramp(lba: i32, sectors: i32) -> Vec<u8> {
    let mut bytes = Vec::new();
    for s in 0..sectors {
        for k in 0..1176u32 {
            let v = ((lba + s) as u32 * 7 + k) as u16;
            bytes.extend_from_slice(&v.to_le_bytes());
        }
    }
    bytes
}

#[test]
fn source_yields_exactly_1176_samples_per_sector() {
    let mut source = CdTrackSource::new(100, 103);
    assert_eq!(source.remaining_samples(), 3 * 1176);
    let (samples, reads) = drain(&mut source, |lba, n| Some(ramp(lba, n)));
    assert_eq!(samples.len(), 3 * 1176);
    assert_eq!(reads, vec![(100, 3)]);
    assert_eq!(source.step(), SourceStep::End);
    assert_eq!(source.step(), SourceStep::End);
    assert_eq!(source.remaining_samples(), 0);
}

#[test]
fn source_reads_at_most_25_sectors_at_once() {
    let mut source = CdTrackSource::new(0, 60);
    let (samples, reads) = drain(&mut source, |lba, n| Some(ramp(lba, n)));
    assert_eq!(samples.len(), 60 * 1176);
    assert_eq!(reads, vec![(0, 25), (25, 25), (50, 10)]);
}

#[test]
fn source_decodes_little_endian_samples_in_order() {
    let mut source = CdTrackSource::new(0, 1);
    let mut bytes = vec![0u8; 2352];
    bytes[0] = 0x34;
    bytes[1] = 0x12;
    bytes[2] = 0xff;
    bytes[3] = 0xff;
    bytes[2350] = 0x00;
    bytes[2351] = 0x80;
    let (samples, _) = drain(&mut source, |_, _| Some(bytes.clone()));
    assert_eq!(samples[0], 0x1234);
    assert_eq!(samples[1], -1);
    assert_eq!(samples[1175], i16::MIN);
}

#[test]
fn failed_read_gives_silence_for_exactly_that_range() {
    let mut source = CdTrackSource::new(0, 60);
    let (samples, reads) = drain(&mut source, |lba, n| if lba == 25 { None } else { Some(ramp(lba, n)) });
    assert_eq!(reads, vec![(0, 25), (25, 25), (50, 10)]);
    assert_eq!(samples.len(), 60 * 1176);
    let good_before = ramp(0, 25);
    for k in 0..25 * 1176 {
        assert_eq!(samples[k], i16::from_le_bytes([good_before[2 * k], good_before[2 * k + 1]]));
    }
    assert!(samples[25 * 1176..50 * 1176].iter().all(|&s| s == 0));
    let good_after = ramp(50, 10);
    for k in 0..10 * 1176 {
        assert_eq!(
            samples[50 * 1176 + k],
            i16::from_le_bytes([good_after[2 * k], good_after[2 * k + 1]])
        );
    }
}

#[test]
fn le_sample_decoding() {
    assert_eq!(sample_from_le_bytes(0xff, 0x7f), i16::MAX);
    assert_eq!(sample_from_le_bytes(0x00, 0x80), i16::MIN);
    assert_eq!(sample_from_le_bytes(0x01, 0x00), 1);
    assert_eq!(sample_from_le_bytes(0xfe, 0xff), -2);
}

#[test]
fn span_len_counts_buffered_frames() {
    let mut source = CdTrackSource::new(0, 2);
    assert_eq!(source.current_span_len(), None);
    match source.step() {
        SourceStep::Read { lba, sectors } => {
            assert_eq!((lba, sectors), (0, 2));
            source.complete_read(Some(&ramp(0, 2)));
        }
        other => panic!("expected a read, got {:?}", other),
    }
    assert_eq!(source.current_span_len(), Some(1176));
    assert!(matches!(source.step(), SourceStep::Sample(_)));
    assert_eq!(source.current_span_len(), Some(1175));
    assert_eq!(source.remaining_samples(), 2 * 1176 - 1);
}

#[test]
fn format_and_duration() {
    let source = CdTrackSource::new(0, 75);
    assert_eq!(source.channels(), 2);
    assert_eq!(source.sample_rate(), 44_100);
    assert_eq!(source.total_duration(), 1_000_000_000);
    let source = CdTrackSource::new(0, 1);
    // 588 frames at 44.1 kHz = 13_333_333.33 ns
    assert_eq!(source.total_duration(), 13_333_333);
}

#[test]
fn data_tracks_and_bad_spans_are_refused() {
    let data = CdTrackInfo { number: 2, start_lba: 0, end_lba: 10, duration_nanos: 0, is_audio: false };
    assert_eq!(CdTrackSource::for_track(&data).err(), Some(CdError::NotAudioTrack(2)));
    let empty = CdTrackInfo { number: 3, start_lba: 10, end_lba: 10, duration_nanos: 0, is_audio: true };
    assert_eq!(CdTrackSource::for_track(&empty).err(), Some(CdError::BadTrackAddresses(3)));
    let audio = CdTrackInfo { number: 1, start_lba: 10, end_lba: 12, duration_nanos: 0, is_audio: true };
    let mut source = CdTrackSource::for_track(&audio).ok().unwrap();
    let (samples, _) = drain(&mut source, |lba, n| Some(ramp(lba, n)));
    assert_eq!(samples.len(), 2 * 1176);
}
