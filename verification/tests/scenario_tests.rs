//! The end-to-end session scenario: hotkey press, two seconds of speech, one
//! second of silence with a 500 ms auto-stop timeout.

use tomchat::config::{
    AudioConfig, Config, HotkeyConfig, TextConfig, VadConfig, VadSensitivity, WhisperConfig,
};
use tomchat::hotkey::HotkeyEvent;
use tomchat::session::{Effect, Pipeline};
use tomchat::vad::VadResult;

#[test]
fn hotkey_speech_then_silence_flushes_one_utterance() {
    let config = Config {
        hotkey: HotkeyConfig { combination: String::from("ctrl+shift+r") },
        audio: AudioConfig { sample_rate: 16000, channels: 1, buffer_duration_ms: 100 },
        vad: VadConfig {
            sensitivity: VadSensitivity::Normal,
            timeout_ms: 500,
            auto_stop: true,
        },
        whisper: WhisperConfig {
            model_path: String::from("models/ggml-small.bin"),
            language: String::from("en"),
            translate: false,
        },
        text: TextConfig { typing_delay_ms: 0 },
    };
    let mut p = Pipeline::new(&config).unwrap();
    let press = HotkeyEvent { id: 3, hotkey: String::from("ctrl+shift+r"), pressed: true };

    // Press the hotkey: recording starts with one start notification.
    let start_effects = p.on_hotkey_event(&press, 3);
    assert_eq!(start_effects, vec![Effect::NotifyStarted]);
    assert!(p.state.is_recording);

    let mut speech_signals = 0;
    let mut silence_signals = 0;
    let mut stop_notifications = 0;
    let mut process_signals = 0;
    let mut flushed: Option<Vec<i16>> = None;

    // 2.0 s of classifier-positive audio in 100 ms chunks (1600 samples,
    // five 320-sample windows each), then 1.0 s of classifier-negative
    // audio. The clock advances 100 ms per chunk.
    for step in 0..30u64 {
        let now_ms = step * 100;
        let chunk: Vec<i16> = vec![7; 1600];
        let positive = step < 20;
        let windows = p.gate.complete_windows(chunk.len());
        let outcomes: Vec<Option<bool>> = vec![Some(positive); windows];

        let before = p.state;
        let effects = p.on_audio_chunk_with_outcomes(&chunk, &outcomes, now_ms);

        // Reconstruct the activity gate signal from the observable transition.
        if p.state.speech_detected && !before.speech_detected {
            speech_signals += 1;
        }
        if !effects.is_empty() {
            silence_signals += 1;
        }
        for e in &effects {
            match e {
                Effect::NotifyStopped => stop_notifications += 1,
                Effect::SignalProcess => {
                    process_signals += 1;
                    let u = p.on_process_signal().expect("a non-empty recording must flush");
                    assert!(flushed.is_none(), "no second utterance may appear");
                    flushed = Some(u.samples);
                }
                Effect::NotifyStarted => panic!("no start notification mid-session"),
            }
        }
        if !before.is_recording {
            // After the auto-stop everything is discarded again.
            assert_eq!(effects.len(), 0);
        }
    }

    // One speech episode, one silence signal, one stop notification, one
    // flush.
    assert_eq!(speech_signals, 1);
    assert_eq!(silence_signals, 1);
    assert_eq!(stop_notifications, 1);
    assert_eq!(process_signals, 1);

    // The utterance holds exactly the samples from the press up to the stop
    // point: the last positive chunk arrives at 1.9 s, and the stop fires on
    // the chunk at 2.5 s, the first whose silence gap exceeds 500 ms — 26
    // chunks in all.
    let samples = flushed.expect("exactly one utterance");
    assert_eq!(samples.len(), 26 * 1600);
    assert!(!p.state.is_recording);
    assert_eq!(p.accumulator.len(), 0);

    // A second racing stop signal observes the empty buffer.
    assert!(p.on_process_signal().is_none());
}

#[test]
fn gate_signals_in_the_scenario_order() {
    // The same episode seen directly at the activity gate: at least one speech
    // signal, then exactly one silence signal, never repeated.
    let mut gate =
        tomchat::vad::VoiceActivityDetector::new(16000, 1, 500).unwrap();
    let chunk: Vec<i16> = vec![7; 1600];
    let mut results: Vec<VadResult> = Vec::new();
    for step in 0..30u64 {
        let outcomes: Vec<Option<bool>> = vec![Some(step < 20); 5];
        results.push(gate.process_with_outcomes(&chunk, &outcomes, step * 100));
    }
    let speech = results.iter().filter(|r| **r == VadResult::SpeechDetected).count();
    let fired = results.iter().filter(|r| **r == VadResult::SilenceDetected).count();
    assert_eq!(speech, 20);
    assert_eq!(fired, 1);
    // The silence signal comes after every speech signal.
    let last_speech = results.iter().rposition(|r| *r == VadResult::SpeechDetected).unwrap();
    let silence_at = results.iter().position(|r| *r == VadResult::SilenceDetected).unwrap();
    assert!(silence_at > last_speech);
}
