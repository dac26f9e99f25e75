use adaptive_equalizer::engine::{
    negotiate_format, AudioEngine, AudioFormat, EngineError, EngineState, SampleKind, Session,
    StopPlan,
};

fn fmt(rate: u32, channels: u16) -> AudioFormat {
    AudioFormat { sample_rate: rate, channels, sample_kind: SampleKind::Float32 }
}

const NOTHING: StopPlan = StopPlan { stop_capture: false, stop_playback: false };

#[test]
fn new_engine_is_uninitialized() {
    let e = AudioEngine::new();
    assert_eq!(e.state(), EngineState::Uninitialized);
    assert!(!e.is_running(Session::Capture));
    assert!(!e.is_running(Session::Playback));
    assert_eq!(e.format(), None);
    assert_eq!(e.last_error(), None);
}

#[test]
fn negotiate_accepts_equal_rates() {
    assert_eq!(negotiate_format(fmt(48000, 1), fmt(48000, 2)), Ok(fmt(48000, 1)));
}

#[test]
fn negotiate_rejects_different_representation() {
    let out = AudioFormat { sample_rate: 48000, channels: 2, sample_kind: SampleKind::Int16 };
    assert_eq!(negotiate_format(fmt(48000, 2), out), Err(EngineError::FormatMismatch));
}

#[test]
fn differing_rates_fail_with_format_mismatch() {
    let mut e = AudioEngine::new();
    let r = e.initialize(Some(fmt(44100, 2)), Some(fmt(48000, 2)));
    assert_eq!(r, Err(EngineError::FormatMismatch));
    assert_eq!(e.state(), EngineState::Faulted);
    assert_eq!(e.last_error(), Some(EngineError::FormatMismatch));
    assert!(!e.is_running(Session::Capture));
    assert!(!e.is_running(Session::Playback));
    assert_eq!(e.shutdown(), NOTHING);
}

#[test]
fn missing_device_fails_with_device_not_found() {
    let mut e = AudioEngine::new();
    assert_eq!(e.initialize(None, Some(fmt(48000, 2))), Err(EngineError::DeviceNotFound));
    let mut e = AudioEngine::new();
    assert_eq!(e.initialize(Some(fmt(48000, 2)), None), Err(EngineError::DeviceNotFound));
    assert_eq!(e.state(), EngineState::Faulted);
}

#[test]
fn full_start_reaches_running() {
    let mut e = AudioEngine::new();
    assert_eq!(e.initialize(Some(fmt(48000, 2)), Some(fmt(48000, 2))), Ok(fmt(48000, 2)));
    assert_eq!(e.state(), EngineState::Initializing);
    e.session_started(Session::Capture);
    assert_eq!(e.state(), EngineState::Initializing);
    e.session_started(Session::Playback);
    assert_eq!(e.state(), EngineState::Running);
    assert_eq!(e.format(), Some(fmt(48000, 2)));
}

#[test]
fn failed_start_stops_what_already_runs() {
    let mut e = AudioEngine::new();
    e.initialize(Some(fmt(48000, 2)), Some(fmt(48000, 2))).unwrap();
    e.session_started(Session::Capture);
    let plan = e.session_failed(Session::Playback);
    assert_eq!(plan, StopPlan { stop_capture: true, stop_playback: false });
    assert_eq!(e.state(), EngineState::Faulted);
    assert_eq!(e.last_error(), Some(EngineError::DeviceError));
    assert!(!e.is_running(Session::Capture));
}

#[test]
fn shutdown_twice_is_idempotent() {
    let mut e = AudioEngine::new();
    e.initialize(Some(fmt(44100, 2)), Some(fmt(44100, 2))).unwrap();
    e.session_started(Session::Capture);
    e.session_started(Session::Playback);
    assert_eq!(e.shutdown(), StopPlan { stop_capture: true, stop_playback: true });
    assert_eq!(e.state(), EngineState::Stopped);
    assert_eq!(e.shutdown(), NOTHING);
    assert_eq!(e.state(), EngineState::Stopped);
}

#[test]
fn shutdown_before_initialize_does_nothing() {
    let mut e = AudioEngine::new();
    assert_eq!(e.shutdown(), NOTHING);
    assert_eq!(e.state(), EngineState::Uninitialized);
}

#[test]
fn restart_after_shutdown() {
    let mut e = AudioEngine::new();
    e.initialize(Some(fmt(44100, 2)), Some(fmt(44100, 2))).unwrap();
    e.shutdown();
    assert_eq!(e.initialize(Some(fmt(48000, 2)), Some(fmt(48000, 2))), Ok(fmt(48000, 2)));
    assert_eq!(e.state(), EngineState::Initializing);
}
