use tomchat::config::{
    AudioConfig, Config, HotkeyConfig, TextConfig, VadConfig, VadSensitivity, WhisperConfig,
};
use tomchat::hotkey::HotkeyEvent;
use tomchat::session::{Effect, Pipeline, RecordingState};
use tomchat::vad::VadSetupError;

fn test_config(auto_stop: bool) -> Config {
    Config {
        hotkey: HotkeyConfig { combination: String::from("ctrl+shift+r") },
        audio: AudioConfig { sample_rate: 16000, channels: 1, buffer_duration_ms: 100 },
        vad: VadConfig { sensitivity: VadSensitivity::Normal, timeout_ms: 500, auto_stop },
        whisper: WhisperConfig {
            model_path: String::from("models/ggml-small.bin"),
            language: String::from("en"),
            translate: false,
        },
        text: TextConfig { typing_delay_ms: 0 },
    }
}

fn press(id: u32) -> HotkeyEvent {
    HotkeyEvent { id, hotkey: String::from("ctrl+shift+r"), pressed: true }
}

fn release(id: u32) -> HotkeyEvent {
    HotkeyEvent { id, hotkey: String::from("ctrl+shift+r"), pressed: false }
}

#[test]
fn default_state_is_idle() {
    let s = RecordingState::default();
    assert!(!s.is_recording);
    assert!(!s.speech_detected);
}

#[test]
fn construction_rejects_unsupported_rate() {
    let mut config = test_config(false);
    config.audio.sample_rate = 11025;
    assert!(matches!(Pipeline::new(&config), Err(VadSetupError::UnsupportedSampleRate)));
}

#[test]
fn hotkey_toggle_emits_one_notification_each_way() {
    // A press while idle: Recording, exactly one start notification.
    let config = test_config(false);
    let mut p = Pipeline::new(&config).unwrap();
    let e1 = p.on_hotkey_event(&press(7), 7);
    assert!(p.state.is_recording);
    assert_eq!(e1, vec![Effect::NotifyStarted]);

    // A second press: Idle, exactly one stop notification, one flush signal.
    let e2 = p.on_hotkey_event(&press(7), 7);
    assert!(!p.state.is_recording);
    assert_eq!(e2, vec![Effect::NotifyStopped, Effect::SignalProcess]);

    // The flush the signal triggers happens exactly once.
    let chunkless = p.on_process_signal();
    assert!(chunkless.is_none());
}

#[test]
fn releases_and_foreign_ids_change_nothing() {
    let config = test_config(false);
    let mut p = Pipeline::new(&config).unwrap();
    let e1 = p.on_hotkey_event(&release(7), 7);
    assert!(e1.is_empty());
    assert!(!p.state.is_recording);
    let e2 = p.on_hotkey_event(&press(8), 7);
    assert!(e2.is_empty());
    assert!(!p.state.is_recording);
}

#[test]
fn chunks_while_idle_are_discarded() {
    let config = test_config(false);
    let mut p = Pipeline::new(&config).unwrap();
    let chunk: Vec<i16> = vec![1, 2, 3, 4];
    let effects = p.on_audio_chunk(&chunk, 0);
    assert!(effects.is_empty());
    assert_eq!(p.accumulator.len(), 0);
}

#[test]
fn chunks_while_recording_accumulate_in_order() {
    let config = test_config(false);
    let mut p = Pipeline::new(&config).unwrap();
    p.on_hotkey_event(&press(1), 1);
    p.on_audio_chunk(&vec![1, 2], 0);
    p.on_audio_chunk(&vec![3], 10);
    p.on_audio_chunk(&vec![4, 5], 20);
    assert_eq!(p.accumulator, vec![1, 2, 3, 4, 5]);
}

#[test]
fn flush_drains_exactly_once() {
    let config = test_config(false);
    let mut p = Pipeline::new(&config).unwrap();
    p.on_hotkey_event(&press(1), 1);
    p.on_audio_chunk(&vec![10, 20, 30], 0);
    p.on_hotkey_event(&press(1), 1);

    let first = p.on_process_signal();
    let u = first.expect("buffered audio must flush");
    assert_eq!(u.samples, vec![10, 20, 30]);
    assert_eq!(u.sample_rate, 16000);
    assert_eq!(p.accumulator.len(), 0);

    // Two stop events racing: the second flush observes an empty buffer.
    let second = p.on_process_signal();
    assert!(second.is_none());
    assert_eq!(p.accumulator.len(), 0);
}

#[test]
fn empty_recording_flushes_nothing() {
    let config = test_config(false);
    let mut p = Pipeline::new(&config).unwrap();
    p.on_hotkey_event(&press(1), 1);
    p.on_hotkey_event(&press(1), 1);
    assert!(p.on_process_signal().is_none());
}

#[test]
fn auto_stop_ends_session_like_a_hotkey_stop() {
    let config = test_config(true);
    let mut p = Pipeline::new(&config).unwrap();
    p.on_hotkey_event(&press(1), 1);

    // One speech window, then silence past the 500 ms timeout.
    let window: Vec<i16> = vec![0; 320];
    let e1 = p.on_audio_chunk_with_outcomes(&window, &vec![Some(true)], 0);
    assert!(e1.is_empty());
    assert!(p.state.speech_detected);

    let e2 = p.on_audio_chunk_with_outcomes(&window, &vec![Some(false)], 600);
    assert_eq!(e2, vec![Effect::NotifyStopped, Effect::SignalProcess]);
    assert!(!p.state.is_recording);
    assert!(!p.state.speech_detected);

    // The flush hands over everything recorded up to the stop.
    let u = p.on_process_signal().unwrap();
    assert_eq!(u.samples.len(), 640);
}

#[test]
fn auto_stop_disabled_never_consults_the_gate() {
    let config = test_config(false);
    let mut p = Pipeline::new(&config).unwrap();
    p.on_hotkey_event(&press(1), 1);
    let window: Vec<i16> = vec![0; 320];
    let effects = p.on_audio_chunk_with_outcomes(&window, &Vec::new(), 10_000);
    assert!(effects.is_empty());
    assert!(p.state.is_recording);
    assert_eq!(p.gate.buffer.len(), 0);
}

#[test]
fn starting_a_session_resets_the_gate() {
    let config = test_config(true);
    let mut p = Pipeline::new(&config).unwrap();
    p.on_hotkey_event(&press(1), 1);
    let window: Vec<i16> = vec![0; 500];
    p.on_audio_chunk_with_outcomes(&window, &vec![Some(true)], 0);
    assert!(p.gate.buffer.len() > 0);
    p.on_hotkey_event(&press(1), 1);
    p.on_process_signal();
    p.on_hotkey_event(&press(1), 1);
    assert_eq!(p.gate.buffer.len(), 0);
    assert_eq!(p.gate.last_speech_ms, None);
    assert!(!p.gate.speech_detected);
}
