use audio_capture::access::AccessStatus;
use audio_capture::config::VadConfig;
use audio_capture::controller::{AudioState, CaptureStatus, JoinOutcome};
use audio_capture::error::CaptureError;
use audio_capture::speaker::{AudioDevice, AudioHost};

fn host() -> AudioHost {
    AudioHost {
        devices: vec![
            AudioDevice { id: "mic".to_string(), loopback: false, sample_rate: 16000 },
            AudioDevice { id: "speakers".to_string(), loopback: true, sample_rate: 48000 },
            AudioDevice { id: "headset".to_string(), loopback: true, sample_rate: 44100 },
        ],
        default_output: Some(1),
        capture_permitted: true,
    }
}

#[test]
fn new_state_is_idle_with_default_config() {
    let s = AudioState::new();
    assert_eq!(s.get_capture_status(), CaptureStatus::Idle);
    assert_eq!(s.active_task(), None);
    assert_eq!(s.get_vad_config(), VadConfig::default());
    assert!(s.get_vad_config().is_valid());
    assert_eq!(s.get_audio_sample_rate(), Err(CaptureError::NoActiveSession));
    let d = AudioState::default();
    assert_eq!(d.get_capture_status(), CaptureStatus::Idle);
}

#[test]
fn start_sets_flag_and_task_together() {
    let mut s = AudioState::new();
    let input = s.start_system_audio_capture(None, AccessStatus::Granted, &host(), 1).unwrap();
    assert_eq!(input.sample_rate(), 48000);
    assert_eq!(input.device_index(), 1);
    assert_eq!(s.get_capture_status(), CaptureStatus::Capturing);
    assert_eq!(s.active_task(), Some(1));
    assert_eq!(s.get_audio_sample_rate(), Ok(48000));
}

#[test]
fn second_start_is_already_capturing() {
    let mut s = AudioState::new();
    assert!(s.start_system_audio_capture(None, AccessStatus::Granted, &host(), 1).is_ok());
    let second = s.start_system_audio_capture(Some("headset".to_string()), AccessStatus::Granted, &host(), 2);
    assert_eq!(second.err(), Some(CaptureError::AlreadyCapturing));
    assert_eq!(s.active_task(), Some(1));
    assert_eq!(s.get_audio_sample_rate(), Ok(48000));
    assert_eq!(s.get_capture_status(), CaptureStatus::Capturing);
}

#[test]
fn many_starts_one_winner() {
    let mut s = AudioState::new();
    let mut ok = 0;
    let mut refused = 0;
    for task in 10u64..20 {
        match s.start_system_audio_capture(None, AccessStatus::NotDetermined, &host(), task) {
            Ok(_) => ok += 1,
            Err(CaptureError::AlreadyCapturing) => refused += 1,
            Err(e) => panic!("unexpected error {:?}", e),
        }
    }
    assert_eq!(ok, 1);
    assert_eq!(refused, 9);
    assert_eq!(s.active_task(), Some(10));
}

#[test]
fn stop_on_idle_is_a_no_op() {
    let mut s = AudioState::new();
    assert_eq!(s.request_stop(), None);
    assert_eq!(s.stop_system_audio_capture(JoinOutcome::Joined), Ok(()));
    assert_eq!(s.stop_system_audio_capture(JoinOutcome::TimedOut), Ok(()));
    assert_eq!(s.manual_stop_continuous(JoinOutcome::TimedOut), Ok(()));
    assert_eq!(s.get_capture_status(), CaptureStatus::Idle);
    assert_eq!(s.get_vad_config(), VadConfig::default());
}

#[test]
fn status_follows_start_and_stop() {
    let mut s = AudioState::new();
    s.start_system_audio_capture(None, AccessStatus::Granted, &host(), 5).unwrap();
    assert_eq!(s.get_capture_status(), CaptureStatus::Capturing);
    assert_eq!(s.request_stop(), Some(5));
    assert_eq!(s.get_capture_status(), CaptureStatus::Stopping);
    assert_eq!(s.stop_system_audio_capture(JoinOutcome::Joined), Ok(()));
    assert_eq!(s.get_capture_status(), CaptureStatus::Idle);
    assert_eq!(s.active_task(), None);
    assert_eq!(s.get_audio_sample_rate(), Err(CaptureError::NoActiveSession));
    assert!(s.start_system_audio_capture(None, AccessStatus::Granted, &host(), 6).is_ok());
    assert_eq!(s.manual_stop_continuous(JoinOutcome::Joined), Ok(()));
    assert_eq!(s.get_capture_status(), CaptureStatus::Idle);
}

#[test]
fn start_while_stopping_is_refused() {
    let mut s = AudioState::new();
    s.start_system_audio_capture(None, AccessStatus::Granted, &host(), 5).unwrap();
    s.request_stop();
    let again = s.start_system_audio_capture(None, AccessStatus::Granted, &host(), 6);
    assert_eq!(again.err(), Some(CaptureError::AlreadyCapturing));
    assert_eq!(s.get_capture_status(), CaptureStatus::Stopping);
}

#[test]
fn shutdown_timeout_still_clears_the_session() {
    let mut s = AudioState::new();
    s.start_system_audio_capture(None, AccessStatus::Granted, &host(), 5).unwrap();
    s.request_stop();
    assert_eq!(s.stop_system_audio_capture(JoinOutcome::TimedOut), Err(CaptureError::ShutdownTimeout));
    assert_eq!(s.get_capture_status(), CaptureStatus::Idle);
    assert_eq!(s.active_task(), None);
}

#[test]
fn denied_access_spawns_nothing() {
    let mut s = AudioState::new();
    assert_eq!(s.check_start(AccessStatus::Denied), Some(CaptureError::PermissionDenied));
    assert_eq!(s.check_start(AccessStatus::Granted), None);
    let r = s.start_system_audio_capture(None, AccessStatus::Denied, &host(), 1);
    assert_eq!(r.err(), Some(CaptureError::PermissionDenied));
    assert_eq!(s.get_capture_status(), CaptureStatus::Idle);
    assert_eq!(s.active_task(), None);
}

#[test]
fn failed_open_leaves_controller_idle() {
    let mut s = AudioState::new();
    let r = s.start_system_audio_capture(Some("mic".to_string()), AccessStatus::Granted, &host(), 1);
    assert_eq!(r.err(), Some(CaptureError::DeviceUnavailable));
    assert_eq!(s.get_capture_status(), CaptureStatus::Idle);
    let mut closed = host();
    closed.capture_permitted = false;
    let r = s.start_system_audio_capture(None, AccessStatus::Granted, &closed, 1);
    assert_eq!(r.err(), Some(CaptureError::PermissionDenied));
    assert_eq!(s.get_capture_status(), CaptureStatus::Idle);
}

#[test]
fn update_vad_config_rejects_threshold_above_one() {
    let mut s = AudioState::new();
    let good = VadConfig {
        energy_threshold: 250_000,
        min_speech_duration_ms: 200,
        min_silence_duration_ms: 300,
        padding_ms: 0,
    };
    assert_eq!(s.update_vad_config(good), Ok(()));
    assert_eq!(s.get_vad_config(), good);
    let bad = VadConfig { energy_threshold: 1_500_000, ..good };
    assert_eq!(s.update_vad_config(bad), Err(CaptureError::InvalidConfig));
    assert_eq!(s.get_vad_config(), good);
    let negative = VadConfig { energy_threshold: -1, ..good };
    assert_eq!(s.update_vad_config(negative), Err(CaptureError::InvalidConfig));
    let no_speech = VadConfig { min_speech_duration_ms: 0, ..good };
    assert_eq!(s.update_vad_config(no_speech), Err(CaptureError::InvalidConfig));
    let no_silence = VadConfig { min_silence_duration_ms: 0, ..good };
    assert_eq!(s.update_vad_config(no_silence), Err(CaptureError::InvalidConfig));
    assert_eq!(s.get_vad_config(), good);
    let edge = VadConfig { energy_threshold: 1_000_000, ..good };
    assert_eq!(s.update_vad_config(edge), Ok(()));
    let zero = VadConfig { energy_threshold: 0, ..good };
    assert_eq!(s.update_vad_config(zero), Ok(()));
    assert_eq!(s.get_vad_config(), zero);
}

#[test]
fn config_update_does_not_touch_the_session() {
    let mut s = AudioState::new();
    s.start_system_audio_capture(None, AccessStatus::Granted, &host(), 3).unwrap();
    let c = VadConfig { energy_threshold: 100_000, min_speech_duration_ms: 1, min_silence_duration_ms: 1, padding_ms: 7 };
    assert_eq!(s.update_vad_config(c), Ok(()));
    assert_eq!(s.get_capture_status(), CaptureStatus::Capturing);
    assert_eq!(s.active_task(), Some(3));
    s.stop_system_audio_capture(JoinOutcome::Joined).unwrap();
    assert_eq!(s.get_vad_config(), c);
}

#[test]
fn stream_failure_returns_to_idle_and_start_works_again() {
    let mut s = AudioState::new();
    s.start_system_audio_capture(None, AccessStatus::Granted, &host(), 1).unwrap();
    assert_eq!(s.get_capture_status(), CaptureStatus::Capturing);
    assert_eq!(s.on_stream_ended(99), None);
    assert_eq!(s.get_capture_status(), CaptureStatus::Capturing);
    assert_eq!(s.on_stream_ended(1), Some(CaptureError::StreamError));
    assert_eq!(s.get_capture_status(), CaptureStatus::Idle);
    assert_eq!(s.on_stream_ended(1), None);
    let again = s.start_system_audio_capture(Some("headset".to_string()), AccessStatus::Granted, &host(), 2);
    assert_eq!(again.unwrap().sample_rate(), 44100);
    assert_eq!(s.get_capture_status(), CaptureStatus::Capturing);
    assert_eq!(s.get_audio_sample_rate(), Ok(44100));
}

#[test]
fn start_with_passes_the_open_error_on() {
    let mut s = AudioState::new();
    let r = s.start_with(AccessStatus::Granted, Err(CaptureError::DeviceUnavailable), 4);
    assert_eq!(r.err(), Some(CaptureError::DeviceUnavailable));
    assert_eq!(s.get_capture_status(), CaptureStatus::Idle);
}
