use audio_capture::config::VadConfig;
use audio_capture::vad::{ms_to_samples, SpeechSegment, VoiceActivityDetector};

fn config() -> VadConfig {
    VadConfig { energy_threshold: 500_000, min_speech_duration_ms: 200, min_silence_duration_ms: 200, padding_ms: 50 }
}

/// Feeds `ms` milliseconds at 1000 Hz in frames of ten samples; each sample
/// holds its own offset.
fn feed(d: &mut VoiceActivityDetector<f32>, ms: u64, score: i64, c: &VadConfig, out: &mut Vec<SpeechSegment<f32>>) {
    let mut fed = 0;
    while fed < ms {
        let at = d.position();
        let frame: Vec<f32> = (0..10).map(|i| (at + i) as f32).collect();
        assert!(d.has_room(frame.len()));
        let r = d.process_frame(frame, score, c);
        assert_eq!(r.active, score >= c.energy_threshold);
        if let Some(seg) = r.segment {
            out.push(seg);
        }
        fed += 10;
    }
}

#[test]
fn ms_to_samples_rounds_down() {
    assert_eq!(ms_to_samples(50, 48000), 2400);
    assert_eq!(ms_to_samples(200, 44100), 8820);
    assert_eq!(ms_to_samples(1, 999), 0);
    assert_eq!(ms_to_samples(3, 1500), 4);
    assert_eq!(ms_to_samples(u32::MAX, u32::MAX), 18446744065119617);
}

#[test]
fn detector_needs_a_rate() {
    assert!(VoiceActivityDetector::<f32>::new(0).is_none());
    let d = VoiceActivityDetector::<f32>::new(16000).unwrap();
    assert_eq!(d.sample_rate(), 16000);
    assert_eq!(d.position(), 0);
    assert!(!d.in_speech());
}

#[test]
fn one_segment_per_tone_burst() {
    let c = config();
    let mut d = VoiceActivityDetector::<f32>::new(1000).unwrap();
    let mut out = Vec::new();
    for _ in 0..3 {
        feed(&mut d, 500, 0, &c, &mut out);
        feed(&mut d, 500, 1_000_000, &c, &mut out);
    }
    feed(&mut d, 500, 0, &c, &mut out);
    assert_eq!(out.len(), 3);
    for (k, seg) in out.iter().enumerate() {
        let tone_start = 500 + 1000 * k as u64;
        let tone_end = tone_start + 500;
        assert_eq!(seg.start_offset, tone_start - 50);
        assert_eq!(seg.end_offset, tone_end + 50);
        assert_eq!(seg.samples.len() as u64, seg.end_offset - seg.start_offset);
        for (i, x) in seg.samples.iter().enumerate() {
            assert_eq!(*x, (seg.start_offset + i as u64) as f32);
        }
    }
    assert!(!d.in_speech());
    assert_eq!(d.position(), 3500);
}

#[test]
fn short_burst_is_no_segment() {
    let c = config();
    let mut d = VoiceActivityDetector::<f32>::new(1000).unwrap();
    let mut out = Vec::new();
    feed(&mut d, 300, 0, &c, &mut out);
    feed(&mut d, 190, 1_000_000, &c, &mut out);
    assert!(!d.in_speech());
    feed(&mut d, 500, 0, &c, &mut out);
    assert!(out.is_empty());
}

#[test]
fn short_pause_does_not_end_a_segment() {
    let c = config();
    let mut d = VoiceActivityDetector::<f32>::new(1000).unwrap();
    let mut out = Vec::new();
    feed(&mut d, 100, 0, &c, &mut out);
    feed(&mut d, 300, 900_000, &c, &mut out);
    assert!(d.in_speech());
    feed(&mut d, 190, 100_000, &c, &mut out);
    assert!(d.in_speech());
    feed(&mut d, 100, 900_000, &c, &mut out);
    feed(&mut d, 200, 0, &c, &mut out);
    assert!(!d.in_speech());
    assert_eq!(out.len(), 1);
    assert_eq!(out[0].start_offset, 50);
    assert_eq!(out[0].end_offset, 740);
    assert_eq!(out[0].samples.len(), 690);
}

#[test]
fn segment_at_session_start_has_no_earlier_padding() {
    let c = config();
    let mut d = VoiceActivityDetector::<f32>::new(1000).unwrap();
    let mut out = Vec::new();
    feed(&mut d, 250, 1_000_000, &c, &mut out);
    feed(&mut d, 200, 0, &c, &mut out);
    assert_eq!(out.len(), 1);
    assert_eq!(out[0].start_offset, 0);
    assert_eq!(out[0].end_offset, 300);
}

#[test]
fn configuration_is_read_with_every_frame() {
    let mut c = config();
    let mut d = VoiceActivityDetector::<f32>::new(1000).unwrap();
    let mut out = Vec::new();
    feed(&mut d, 100, 0, &c, &mut out);
    feed(&mut d, 100, 600_000, &c, &mut out);
    assert!(!d.in_speech());
    c.min_speech_duration_ms = 110;
    feed(&mut d, 10, 600_000, &c, &mut out);
    assert!(d.in_speech());
    c.energy_threshold = 700_000;
    c.min_silence_duration_ms = 20;
    c.padding_ms = 5;
    feed(&mut d, 20, 600_000, &c, &mut out);
    assert_eq!(out.len(), 1);
    assert_eq!(out[0].start_offset, 50);
    assert_eq!(out[0].end_offset, 215);
    assert!(!d.in_speech());
}

#[test]
fn threshold_is_inclusive() {
    let c = config();
    let mut d = VoiceActivityDetector::<f32>::new(1000).unwrap();
    assert!(d.process_frame(vec![0.0; 10], 500_000, &c).active);
    assert!(!d.process_frame(vec![0.0; 10], 499_999, &c).active);
}
