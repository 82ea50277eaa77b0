use meta_dj_analyzer::artifact::{artifacts_dir, waveform_artifact_path, waveform_id};
use meta_dj_analyzer::downmix::{downmix, IntEncoding};
use meta_dj_analyzer::envelope::{
    effective_sample_rate, frame_cap, EnvelopeCounter, FrameStep, DEFAULT_WINDOW,
};
use meta_dj_analyzer::fallback::Fallback;
use meta_dj_analyzer::session::{
    packet_action, route_buffer, BufferRoute, PacketAction, PacketEvent, SampleFormat,
};
use meta_dj_analyzer::tempo::{bpm_for_lag, lag_bounds, plan_tempo, resolve_bpm, Bpm, LagRange};

#[test]
fn sample_rate_defaults() {
    assert_eq!(effective_sample_rate(None), 44100);
    assert_eq!(effective_sample_rate(Some(0)), 44100);
    assert_eq!(effective_sample_rate(Some(48000)), 48000);
}

#[test]
fn cap_is_thirty_seconds() {
    assert_eq!(frame_cap(44100), 1_323_000);
    assert_eq!(frame_cap(48000), 1_440_000);
}

#[test]
fn five_seconds_give_215_windows() {
    let frames: u64 = 5 * 44100;
    let mut c = EnvelopeCounter::new(DEFAULT_WINDOW, frame_cap(44100));
    let mut closed: u64 = 0;
    for _ in 0..frames {
        match c.step() {
            FrameStep::Stop => panic!("cap reached early"),
            FrameStep::CloseWindow => closed += 1,
            FrameStep::Accumulate => {}
        }
    }
    assert_eq!(closed, 215);
    assert_eq!(c.windows(), 215);
    assert_eq!(c.frames(), frames);
    assert_eq!(c.windows(), c.frames() / DEFAULT_WINDOW as u64);
}

#[test]
fn partial_window_adds_no_entry() {
    let mut c = EnvelopeCounter::new(4, 100);
    for _ in 0..11 {
        c.step();
    }
    assert_eq!(c.windows(), 2);
    assert_eq!(c.frames(), 11);
}

#[test]
fn cap_stops_taking_frames() {
    let mut c = EnvelopeCounter::new(2, 5);
    let steps: Vec<FrameStep> = (0..7).map(|_| c.step()).collect();
    assert_eq!(
        steps,
        vec![
            FrameStep::Accumulate,
            FrameStep::CloseWindow,
            FrameStep::Accumulate,
            FrameStep::CloseWindow,
            FrameStep::Accumulate,
            FrameStep::Stop,
            FrameStep::Stop,
        ]
    );
    assert!(c.is_full());
    assert_eq!(c.frames(), 5);
    assert_eq!(c.windows(), 2);
}

#[test]
fn empty_cap_takes_nothing() {
    let mut c = EnvelopeCounter::new(1024, 0);
    assert_eq!(c.step(), FrameStep::Stop);
    assert_eq!(c.windows(), 0);
}

#[test]
fn downmix_signed16_extremes() {
    let planes = vec![vec![32767, -32768, 0], vec![32767, -32768, 100]];
    let m = downmix(&planes, 3, IntEncoding::Signed16);
    assert_eq!(m.sums, vec![65534, -65536, 100]);
    assert_eq!(m.scale, 65536);
}

#[test]
fn downmix_unsigned8_is_centred() {
    let planes = vec![vec![0, 255, 128]];
    let m = downmix(&planes, 3, IntEncoding::Unsigned8);
    assert_eq!(m.sums, vec![-128, 127, 0]);
    assert_eq!(m.scale, 128);
}

#[test]
fn downmix_signed32_full_scale() {
    let planes = vec![vec![i32::MIN, i32::MAX], vec![i32::MIN, i32::MAX]];
    let m = downmix(&planes, 2, IntEncoding::Signed32);
    assert_eq!(m.sums, vec![-(1i128 << 32), (1i128 << 32) - 2]);
    assert_eq!(m.scale, 1u128 << 32);
    for s in &m.sums {
        assert!(s.unsigned_abs() <= m.scale);
    }
}

#[test]
fn downmix_uses_only_requested_frames() {
    let planes = vec![vec![1, 2, 3, 4]];
    let m = downmix(&planes, 2, IntEncoding::Signed16);
    assert_eq!(m.sums, vec![1, 2]);
}

#[test]
fn lag_bounds_at_cd_rate() {
    assert_eq!(lag_bounds(44100, 1024), LagRange { min: 14, max: 43 });
}

#[test]
fn lag_bounds_round_halves_up() {
    // 44544 / 3072 is exactly 14.5
    assert_eq!(lag_bounds(44544, 1024).min, 15);
}

#[test]
fn lag_bounds_never_below_one() {
    assert_eq!(lag_bounds(1000, 1024), LagRange { min: 1, max: 1 });
}

#[test]
fn tempo_needs_more_than_eight_windows() {
    assert_eq!(plan_tempo(8, 44100, 1024), None);
    assert_eq!(plan_tempo(0, 44100, 1024), None);
    assert_eq!(plan_tempo(9, 44100, 1024), Some(LagRange { min: 14, max: 43 }));
}

#[test]
fn tempo_skipped_when_range_is_empty() {
    assert_eq!(plan_tempo(100, 44100, 1_000_000), None);
}

#[test]
fn bpm_of_lags() {
    assert_eq!(bpm_for_lag(44100, 1024, 20), Bpm { num: 2_646_000, den: 20_480 });
    assert_eq!(bpm_for_lag(44100, 1024, 1), Bpm { num: 180, den: 1 });
    assert_eq!(bpm_for_lag(44100, 1024, 100), Bpm { num: 60, den: 1 });
    assert_eq!(bpm_for_lag(44100, 1024, 43), Bpm { num: 2_646_000, den: 44_032 });
}

#[test]
fn bpm_always_in_range() {
    for lag in 1u32..200 {
        let b = bpm_for_lag(44100, 1024, lag);
        assert!(b.num >= 60 * b.den && b.num <= 180 * b.den);
    }
}

#[test]
fn flat_envelope_falls_back_to_seed_tempo() {
    let f = Fallback::from_seed(123456789);
    assert_eq!(resolve_bpm(None, 44100, 1024, &f), Bpm { num: 65, den: 1 });
    assert_eq!(resolve_bpm(Some(20), 44100, 1024, &f), Bpm { num: 2_646_000, den: 20_480 });
}

#[test]
fn waveform_id_is_hex_sha1() {
    assert_eq!(waveform_id(""), "da39a3ee5e6b4b0d3255bfef95601890afd80709");
    assert_eq!(waveform_id("track.mp3"), "3568dd6e7145ee9bfb28af118cdd510a7260e694");
}

#[test]
fn waveform_path_layout() {
    assert_eq!(
        waveform_artifact_path("out", "track.mp3"),
        "out/3568dd6e7145ee9bfb28af118cdd510a7260e694.waveform.json"
    );
}

#[test]
fn artifacts_dir_default_and_configured() {
    assert_eq!(artifacts_dir(None), ".meta-dj-artifacts");
    assert_eq!(artifacts_dir(Some("/tmp/a".to_string())), "/tmp/a");
}

#[test]
fn packets_of_other_tracks_are_skipped() {
    assert_eq!(packet_action(3, PacketEvent::Packet { track: 3 }), PacketAction::Decode);
    assert_eq!(packet_action(3, PacketEvent::Packet { track: 4 }), PacketAction::Skip);
    assert_eq!(packet_action(3, PacketEvent::Exhausted), PacketAction::Stop);
}

#[test]
fn unsupported_encodings_are_skipped() {
    assert_eq!(route_buffer(SampleFormat::Float32), BufferRoute::Float);
    assert_eq!(route_buffer(SampleFormat::Signed16), BufferRoute::Integer(IntEncoding::Signed16));
    assert_eq!(route_buffer(SampleFormat::Signed32), BufferRoute::Integer(IntEncoding::Signed32));
    assert_eq!(route_buffer(SampleFormat::Unsigned8), BufferRoute::Integer(IntEncoding::Unsigned8));
    assert_eq!(route_buffer(SampleFormat::Other), BufferRoute::Skip);
}
