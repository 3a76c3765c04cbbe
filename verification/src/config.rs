//! Configuration surface of the pipeline.
//!
//! These are plain data types; reading the configuration file and the
//! environment is done by the surrounding application, which then hands the
//! values in here.

use vstd::prelude::*;

verus! {

/// Top-level configuration: one block per component.
pub struct Config {
    pub hotkey: HotkeyConfig,
    pub audio: AudioConfig,
    pub vad: VadConfig,
    pub whisper: WhisperConfig,
    pub text: TextConfig,
}

/// The global key combination that toggles recording, e.g. `"ctrl+shift+r"`.
pub struct HotkeyConfig {
    pub combination: String,
}

/// Capture-side audio parameters.
pub struct AudioConfig {
    pub sample_rate: u32,
    pub channels: u16,
    pub buffer_duration_ms: u32,
}

/// Voice-activity gate parameters.
pub struct VadConfig {
    pub sensitivity: VadSensitivity,
    pub timeout_ms: u32,
    pub auto_stop: bool,
}

/// Aggressiveness of the voice-activity classifier.
#[derive(Clone, Copy, PartialEq, Eq, Structural, Debug)]
pub enum VadSensitivity {
    Low,
    Normal,
    High,
    VeryHigh,
}

impl VadSensitivity {
    /// The classifier's numeric operating mode for this sensitivity level.
    pub fn to_webrtc_mode(&self) -> (mode: i32)
        ensures
            mode == self.spec_webrtc_mode(),
            0 <= mode <= 3,
    {
        match self {
            VadSensitivity::Low => 0,
            VadSensitivity::Normal => 1,
            VadSensitivity::High => 2,
            VadSensitivity::VeryHigh => 3,
        }
    }

    pub open spec fn spec_webrtc_mode(self) -> i32 {
        match self {
            VadSensitivity::Low => 0,
            VadSensitivity::Normal => 1,
            VadSensitivity::High => 2,
            VadSensitivity::VeryHigh => 3,
        }
    }
}

/// Speech-recognition engine parameters. The model path is kept as a plain
/// string; the application turns it into a filesystem path.
pub struct WhisperConfig {
    pub model_path: String,
    pub language: String,
    pub translate: bool,
}

/// Text-output parameters.
pub struct TextConfig {
    pub typing_delay_ms: u64,
}

} // verus!
