//! The recording session: the shared Idle/Recording state, the append-only
//! sample accumulator, and the dispatcher transitions that hotkey events,
//! audio chunks and internal stop signals drive.
//!
//! The surrounding application owns the event loop; every decision it takes —
//! whether to buffer a chunk, when to flush, which notifications to emit — is
//! a verified transition here.

use vstd::prelude::*;
use crate::config::Config;
use crate::hotkey::HotkeyEvent;
use crate::vad::{gate_process, GateModel, VadResult, VadSetupError, VoiceActivityDetector};

verus! {

/// The shared session flag pair: whether audio is being buffered, and whether
/// speech has been observed in the current session.
#[derive(Debug, Clone, Copy, PartialEq, Eq, Structural)]
pub struct RecordingState {
    pub is_recording: bool,
    pub speech_detected: bool,
}

impl Default for RecordingState {
    /// A fresh session starts idle with no speech observed.
    fn default() -> (r: Self)
        ensures
            !r.is_recording,
            !r.speech_detected,
    {
        RecordingState { is_recording: false, speech_detected: false }
    }
}

/// An action the dispatcher asks the surrounding application to perform.
/// The application performs them in order; none of them feeds back into the
/// session state except `SignalProcess`, which it turns into one
/// `on_process_signal` call.
#[derive(Debug, Clone, Copy, PartialEq, Eq, Structural)]
pub enum Effect {
    /// Emit exactly one "recording started" notification.
    NotifyStarted,
    /// Emit exactly one "recording stopped" notification.
    NotifyStopped,
    /// Raise the internal "process now" signal that flushes the accumulator.
    SignalProcess,
}

/// One complete buffered recording, drained from the accumulator by exactly
/// one flush and handed to transcription as a unit.
pub struct Utterance {
    pub samples: Vec<i16>,
    pub sample_rate: u32,
}

/// What a hotkey toggle does to the session state, and which actions it
/// demands: starting clears the speech flag and notifies once; stopping
/// notifies once and raises the process signal that performs the flush.
pub open spec fn spec_hotkey_transition(s: RecordingState) -> (RecordingState, Seq<Effect>) {
    if !s.is_recording {
        (
            RecordingState { is_recording: true, speech_detected: false },
            seq![Effect::NotifyStarted],
        )
    } else {
        (
            RecordingState { is_recording: false, speech_detected: false },
            seq![Effect::NotifyStopped, Effect::SignalProcess],
        )
    }
}

/// What a gate signal does to the session state while recording: the silence
/// signal acts exactly like a hotkey stop (the auto-stop), a speech signal
/// marks speech as observed, plain silence changes nothing.
pub open spec fn spec_gate_signal_transition(s: RecordingState, v: VadResult) -> (RecordingState, Seq<Effect>) {
    match v {
        VadResult::SilenceDetected => (
            RecordingState { is_recording: false, speech_detected: false },
            seq![Effect::NotifyStopped, Effect::SignalProcess],
        ),
        VadResult::SpeechDetected => (
            RecordingState { speech_detected: true, ..s },
            Seq::<Effect>::empty(),
        ),
        VadResult::Silence => (s, Seq::<Effect>::empty()),
    }
}

/// What one flush returns and leaves behind: all buffered samples (as `Some`
/// exactly when there are any), and an empty accumulator.
pub open spec fn spec_flush(acc: Seq<i16>) -> (Option<Seq<i16>>, Seq<i16>) {
    (if acc.len() > 0 { Some(acc) } else { None }, Seq::<i16>::empty())
}

/// One audio-chunk step of the dispatcher while recording with auto-stop
/// enabled, given the frame outcomes `outs`: the activity gate performs one step on
/// the chunk and its signal drives the session transition.
pub open spec fn spec_chunk_step(
    gm0: GateModel,
    frame_size: nat,
    timeout_ms: u64,
    s0: RecordingState,
    chunk: Seq<i16>,
    outs: Seq<Option<bool>>,
    now_ms: u64,
    gm1: GateModel,
    s1: RecordingState,
    effects: Seq<Effect>,
) -> bool {
    let (gm, v) = gate_process(gm0, frame_size, timeout_ms, chunk, outs, now_ms);
    &&& outs.len() == ((gm0.pending.len() + chunk.len()) as int) / frame_size as int
    &&& gm1 == gm
    &&& (s1, effects) == spec_gate_signal_transition(s0, v)
}

/// The dispatcher core: session state, accumulator and gate under one owner.
/// The application's event loop multiplexes its three event sources into the
/// three `on_*` methods and performs the returned effects.
pub struct Pipeline {
    pub state: RecordingState,
    /// Ordered append-only sample buffer; filled while recording, drained
    /// atomically by exactly one flush per utterance.
    pub accumulator: Vec<i16>,
    /// The voice-activity gate, consulted only when auto-stop is enabled.
    pub gate: VoiceActivityDetector,
    /// Rate tag carried into each utterance.
    pub sample_rate: u32,
    /// Whether the activity gate may end a recording on persistent silence.
    pub auto_stop: bool,
}

impl Pipeline {
    pub open spec fn wf(&self) -> bool {
        self.gate.wf()
    }

    /// Everything a single event leaves untouched.
    pub open spec fn same_setup(&self, other: &Self) -> bool {
        self.sample_rate == other.sample_rate && self.auto_stop == other.auto_stop
            && self.gate.same_setup(&other.gate)
    }

    /// Build the dispatcher from the configuration. Fails exactly when the
    /// configured sample rate is not supported by the classifier.
    pub fn new(config: &Config) -> (r: Result<Self, VadSetupError>)
        ensures
            r is Ok <==> crate::vad::spec_frame_size_for_rate(config.audio.sample_rate) is Some,
            r matches Ok(p) ==> {
                &&& p.wf()
                &&& !p.state.is_recording
                &&& !p.state.speech_detected
                &&& p.accumulator@ =~= Seq::<i16>::empty()
                &&& p.gate.is_cleared()
                &&& Some(p.gate.frame_size) == crate::vad::spec_frame_size_for_rate(
                    config.audio.sample_rate,
                )
                &&& p.gate.silence_timeout_ms == config.vad.timeout_ms as u64
                &&& p.sample_rate == config.audio.sample_rate
                &&& p.auto_stop == config.vad.auto_stop
            },
    {
        let gate = VoiceActivityDetector::new(
            config.audio.sample_rate,
            config.vad.sensitivity.to_webrtc_mode(),
            config.vad.timeout_ms,
        )?;
        Ok(Pipeline {
            state: RecordingState { is_recording: false, speech_detected: false },
            accumulator: Vec::new(),
            gate,
            sample_rate: config.audio.sample_rate,
            auto_stop: config.vad.auto_stop,
        })
    }

    /// Apply a hotkey event. Only a press of the registered combination acts:
    /// it toggles the session per the transition table, resetting the activity gate on
    /// start; everything else — releases, other ids — changes nothing. The
    /// accumulator is never touched here: stopping only raises the process
    /// signal, and the flush it triggers is `on_process_signal`.
    pub fn on_hotkey_event(&mut self, event: &HotkeyEvent, registered_id: u32) -> (effects: Vec<
        Effect,
    >)
        requires
            old(self).wf(),
        ensures
            final(self).wf(),
            old(self).same_setup(final(self)),
            final(self).accumulator@ == old(self).accumulator@,
            !(event.pressed && event.id == registered_id) ==> {
                &&& final(self).state == old(self).state
                &&& final(self).gate.model() == old(self).gate.model()
                &&& effects@ =~= Seq::<Effect>::empty()
            },
            (event.pressed && event.id == registered_id) ==> {
                &&& (final(self).state, effects@) == spec_hotkey_transition(old(self).state)
                &&& (!old(self).state.is_recording ==> final(self).gate.is_cleared())
                &&& (old(self).state.is_recording ==> final(self).gate.model() == old(
                    self,
                ).gate.model())
            },
    {
        let mut effects: Vec<Effect> = Vec::new();
        if !(event.pressed && event.id == registered_id) {
            return effects;
        }
        if !self.state.is_recording {
            self.state.is_recording = true;
            self.state.speech_detected = false;
            self.gate.reset();
            effects.push(Effect::NotifyStarted);
            proof {
                assert(effects@ =~= seq![Effect::NotifyStarted]);
            }
        } else {
            self.state.is_recording = false;
            self.state.speech_detected = false;
            effects.push(Effect::NotifyStopped);
            effects.push(Effect::SignalProcess);
            proof {
                assert(effects@ =~= seq![Effect::NotifyStopped, Effect::SignalProcess]);
            }
        }
        effects
    }

    /// Apply one audio chunk. While idle the chunk is discarded: nothing —
    /// in particular not the accumulator — changes. While recording the whole
    /// chunk is appended, and, when auto-stop is enabled, also fed to the
    /// gate, whose silence signal stops the session exactly like a hotkey
    /// stop. The activity gate's frame outcomes come from the external classifier, so
    /// the contract holds for every outcome sequence.
    pub fn on_audio_chunk(&mut self, chunk: &Vec<i16>, now_ms: u64) -> (effects: Vec<Effect>)
        requires
            old(self).wf(),
            old(self).accumulator@.len() + chunk@.len() <= usize::MAX,
            old(self).gate.buffer@.len() + chunk@.len() <= usize::MAX,
        ensures
            final(self).wf(),
            old(self).same_setup(final(self)),
            !old(self).state.is_recording ==> {
                &&& final(self).state == old(self).state
                &&& final(self).accumulator@ == old(self).accumulator@
                &&& final(self).gate.model() == old(self).gate.model()
                &&& effects@ =~= Seq::<Effect>::empty()
            },
            old(self).state.is_recording ==> final(self).accumulator@ == old(self).accumulator@
                + chunk@,
            (old(self).state.is_recording && !old(self).auto_stop) ==> {
                &&& final(self).state == old(self).state
                &&& final(self).gate.model() == old(self).gate.model()
                &&& effects@ =~= Seq::<Effect>::empty()
            },
            (old(self).state.is_recording && old(self).auto_stop) ==> exists|
                outs: Seq<Option<bool>>,
            |
                spec_chunk_step(
                    old(self).gate.model(),
                    old(self).gate.frame_size as nat,
                    old(self).gate.silence_timeout_ms,
                    old(self).state,
                    chunk@,
                    outs,
                    now_ms,
                    final(self).gate.model(),
                    final(self).state,
                    effects@,
                ),
    {
        let mut effects: Vec<Effect> = Vec::new();
        if !self.state.is_recording {
            return effects;
        }
        append_accumulator(&mut self.accumulator, chunk);
        if self.auto_stop {
            let ghost gm0 = self.gate.model();
            let ghost s0 = self.state;
            let ghost fs = self.gate.frame_size as nat;
            let ghost timeout = self.gate.silence_timeout_ms;
            let v = self.gate.process_audio(chunk, now_ms);
            match v {
                VadResult::SilenceDetected => {
                    self.state.is_recording = false;
                    self.state.speech_detected = false;
                    effects.push(Effect::NotifyStopped);
                    effects.push(Effect::SignalProcess);
                    proof {
                        assert(effects@ =~= seq![Effect::NotifyStopped, Effect::SignalProcess]);
                    }
                },
                VadResult::SpeechDetected => {
                    self.state.speech_detected = true;
                },
                VadResult::Silence => {},
            }
            proof {
                let outs = choose|outs: Seq<Option<bool>>|
                    outs.len() == ((gm0.pending.len() + chunk@.len()) as int) / fs as int && (
                    self.gate.model(),
                    v,
                ) == gate_process(gm0, fs, timeout, chunk@, outs, now_ms);
                assert(spec_chunk_step(
                    gm0,
                    fs,
                    timeout,
                    s0,
                    chunk@,
                    outs,
                    now_ms,
                    self.gate.model(),
                    self.state,
                    effects@,
                ));
            }
        }
        effects
    }

    /// Apply one audio chunk with the frame outcomes given instead of asked
    /// of the classifier: the deterministic twin of `on_audio_chunk`, with
    /// the same transitions pinned down exactly. `outcomes` must carry one
    /// entry per classification window that completes with this chunk
    /// (`gate.complete_windows` tells how many); it is ignored while idle or
    /// when auto-stop is disabled.
    pub fn on_audio_chunk_with_outcomes(
        &mut self,
        chunk: &Vec<i16>,
        outcomes: &Vec<Option<bool>>,
        now_ms: u64,
    ) -> (effects: Vec<Effect>)
        requires
            old(self).wf(),
            old(self).accumulator@.len() + chunk@.len() <= usize::MAX,
            old(self).gate.buffer@.len() + chunk@.len() <= usize::MAX,
            (old(self).state.is_recording && old(self).auto_stop) ==> outcomes@.len() == ((old(
                self,
            ).gate.buffer@.len() + chunk@.len()) as int) / old(self).gate.frame_size as int,
        ensures
            final(self).wf(),
            old(self).same_setup(final(self)),
            !old(self).state.is_recording ==> {
                &&& final(self).state == old(self).state
                &&& final(self).accumulator@ == old(self).accumulator@
                &&& final(self).gate.model() == old(self).gate.model()
                &&& effects@ =~= Seq::<Effect>::empty()
            },
            old(self).state.is_recording ==> final(self).accumulator@ == old(self).accumulator@
                + chunk@,
            (old(self).state.is_recording && !old(self).auto_stop) ==> {
                &&& final(self).state == old(self).state
                &&& final(self).gate.model() == old(self).gate.model()
                &&& effects@ =~= Seq::<Effect>::empty()
            },
            (old(self).state.is_recording && old(self).auto_stop) ==> {
                let (gm, v) = gate_process(
                    old(self).gate.model(),
                    old(self).gate.frame_size as nat,
                    old(self).gate.silence_timeout_ms,
                    chunk@,
                    outcomes@,
                    now_ms,
                );
                &&& final(self).gate.model() == gm
                &&& (final(self).state, effects@) == spec_gate_signal_transition(
                    old(self).state,
                    v,
                )
            },
    {
        let mut effects: Vec<Effect> = Vec::new();
        if !self.state.is_recording {
            return effects;
        }
        append_accumulator(&mut self.accumulator, chunk);
        if self.auto_stop {
            let v = self.gate.process_with_outcomes(chunk, outcomes, now_ms);
            match v {
                VadResult::SilenceDetected => {
                    self.state.is_recording = false;
                    self.state.speech_detected = false;
                    effects.push(Effect::NotifyStopped);
                    effects.push(Effect::SignalProcess);
                    proof {
                        assert(effects@ =~= seq![Effect::NotifyStopped, Effect::SignalProcess]);
                    }
                },
                VadResult::SpeechDetected => {
                    self.state.speech_detected = true;
                },
                VadResult::Silence => {},
            }
        }
        effects
    }

    /// Apply the internal "process now" signal: reset the activity gate and drain the
    /// accumulator atomically into an utterance — `Some` exactly when any
    /// samples were buffered. The accumulator is empty afterwards, so a
    /// second signal racing the first observes an empty buffer and flushes
    /// nothing: no utterance is lost and none is produced twice.
    pub fn on_process_signal(&mut self) -> (utterance: Option<Utterance>)
        requires
            old(self).wf(),
        ensures
            final(self).wf(),
            old(self).same_setup(final(self)),
            final(self).state == old(self).state,
            final(self).accumulator@ =~= Seq::<i16>::empty(),
            final(self).gate.is_cleared(),
            utterance is Some <==> old(self).accumulator@.len() > 0,
            utterance matches Some(u) ==> u.samples@ == old(self).accumulator@ && u.sample_rate
                == old(self).sample_rate,
            final(self).accumulator@ == spec_flush(old(self).accumulator@).1,
            utterance matches Some(u) ==> Some(u.samples@) == spec_flush(
                old(self).accumulator@,
            ).0,
            utterance is None ==> spec_flush(old(self).accumulator@).0 is None,
    {
        self.gate.reset();
        let data = self.accumulator.split_off(0);
        proof {
            assert(data@ =~= old(self).accumulator@);
            assert(self.accumulator@ =~= Seq::<i16>::empty());
        }
        if data.len() > 0 {
            Some(Utterance { samples: data, sample_rate: self.sample_rate })
        } else {
            None
        }
    }
}

/// Append a chunk to the accumulator.
fn append_accumulator(dst: &mut Vec<i16>, src: &Vec<i16>)
    requires
        old(dst)@.len() + src@.len() <= usize::MAX,
    ensures
        final(dst)@ == old(dst)@ + src@,
{
    let mut i: usize = 0;
    while i < src.len()
        invariant
            i <= src@.len(),
            old(dst)@.len() + src@.len() <= usize::MAX,
            dst@ == old(dst)@ + src@.take(i as int),
        decreases src@.len() - i,
    {
        proof {
            assert(old(dst)@ + src@.take(i + 1 as int) =~= (old(dst)@ + src@.take(i as int)).push(
                src@[i as int],
            ));
        }
        dst.push(src[i]);
        i = i + 1;
    }
    proof {
        assert(src@.take(src@.len() as int) =~= src@);
    }
}

/// Law: a hotkey press while idle starts recording and demands exactly one
/// start notification; a second press stops recording and demands exactly one
/// stop notification and exactly one process signal — hence exactly one
/// flush.
pub proof fn lemma_hotkey_toggle_cycle(s0: RecordingState)
    requires
        !s0.is_recording,
    ensures
        ({
            let (s1, e1) = spec_hotkey_transition(s0);
            let (s2, e2) = spec_hotkey_transition(s1);
            &&& s1.is_recording
            &&& e1 =~= seq![Effect::NotifyStarted]
            &&& !s2.is_recording
            &&& e2 =~= seq![Effect::NotifyStopped, Effect::SignalProcess]
        }),
{
}

/// Law: two flushes in a row cannot double-count or lose samples: the first
/// takes everything that was buffered, the second observes an empty buffer
/// and yields nothing.
pub proof fn lemma_double_flush(acc: Seq<i16>)
    ensures
        ({
            let (u1, acc1) = spec_flush(acc);
            let (u2, acc2) = spec_flush(acc1);
            &&& (acc.len() > 0 ==> u1 == Some(acc))
            &&& (acc.len() == 0 ==> u1 is None)
            &&& u2 is None
            &&& acc2 =~= Seq::<i16>::empty()
        }),
{
}

} // verus!
