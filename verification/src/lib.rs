//! Verified core of a hotkey-triggered speech-capture pipeline.
//!
//! The library holds the logic that decides when audio is buffered, when a
//! recording auto-stops on silence, how an utterance is flushed exactly once,
//! and how transcribed text is post-processed. Device I/O, the speech models
//! and the OS hotkey hooks live outside, behind narrow trusted interfaces.

pub mod audio;
pub mod chars;
pub mod config;
pub mod hotkey;
pub mod notify;
pub mod refine;
pub mod session;
pub mod textproc;
pub mod vad;
