//! Voice-activity gate: consumes audio in fixed-size frames, asks an external
//! classifier whether each frame holds speech, and keeps the hysteresis state
//! that turns per-frame decisions into one edge-triggered silence signal per
//! speech episode.
//!
//! The per-frame classification comes from the `webrtc_vad` crate and is
//! opaque: nothing is assumed about which frames it calls speech. All state
//! kept here is updated by verified code that holds for every possible
//! sequence of classifier outcomes.

use vstd::prelude::*;
use webrtc_vad::Vad;

verus! {

/// The external classifier handle. Its internal DSP state is opaque.
#[verifier::external_type_specification]
#[verifier::external_body]
pub struct ExVad(Vad);

/// Relies on `webrtc_vad::Vad::new_with_rate_and_mode`: builds a classifier
/// for one of the four supported rates and an aggressiveness mode in 0..=3.
/// It panics only on memory-allocation failure.
#[verifier::external_body]
fn vad_new(sample_rate: u32, mode: i32) -> (v: Vad)
    requires
        sample_rate == 8000 || sample_rate == 16000 || sample_rate == 32000
            || sample_rate == 48000,
        0 <= mode <= 3,
{
    let rate = webrtc_vad::SampleRate::try_from(sample_rate as i32).unwrap();
    let vad_mode = match mode {
        0 => webrtc_vad::VadMode::Quality,
        1 => webrtc_vad::VadMode::LowBitrate,
        2 => webrtc_vad::VadMode::Aggressive,
        _ => webrtc_vad::VadMode::VeryAggressive,
    };
    Vad::new_with_rate_and_mode(rate, vad_mode)
}

/// Relies on `webrtc_vad::Vad::is_voice_segment`: `Ok(b)` is the classifier's
/// speech decision for the frame, `Err(())` an invalid frame length. The
/// decision depends on the classifier's internal state, so nothing is stated
/// about the returned value. The frame must be non-empty: the call indexes
/// its first sample.
#[verifier::external_body]
fn classify_frame(vad: &mut Vad, frame: &Vec<i16>) -> (r: Option<bool>)
    requires
        frame@.len() >= 1,
{
    vad.is_voice_segment(frame.as_slice()).ok()
}

/// Samples per 20 ms classification window at each supported rate.
pub open spec fn spec_frame_size_for_rate(sample_rate: u32) -> Option<usize> {
    match sample_rate {
        8000u32 => Some(160usize),
        16000u32 => Some(320usize),
        32000u32 => Some(640usize),
        48000u32 => Some(960usize),
        _ => None,
    }
}

/// The classification window size for a sample rate, or `None` when the rate
/// is not supported by the classifier.
pub fn frame_size_for_rate(sample_rate: u32) -> (r: Option<usize>)
    ensures
        r == spec_frame_size_for_rate(sample_rate),
{
    match sample_rate {
        8000 => Some(160),
        16000 => Some(320),
        32000 => Some(640),
        48000 => Some(960),
        _ => None,
    }
}

/// Tri-state signal of one gate step.
#[derive(Debug, Clone, Copy, PartialEq, Eq, Structural)]
pub enum VadResult {
    SpeechDetected,
    Silence,
    /// Transition from speech to silence: speech had been observed and
    /// silence has now persisted beyond the configured timeout.
    SilenceDetected,
}

/// Construction failure of the activity gate.
#[derive(Debug, Clone, Copy, PartialEq, Eq, Structural)]
pub enum VadSetupError {
    UnsupportedSampleRate,
}

/// The activity gate's observable state, as contracts speak of it. The classifier
/// handle itself carries no specified state.
pub struct GateModel {
    /// Samples not yet grouped into a complete classification window.
    pub pending: Seq<i16>,
    /// When speech was last classified, if ever.
    pub last_speech_ms: Option<u64>,
    /// Whether a speech episode is open: set on the first positive frame,
    /// cleared when the silence signal fires.
    pub speech_detected: bool,
}

/// Milliseconds since the last positive frame, infinite (modelled as
/// "elapsed") when no speech was ever observed. A clock that jumped backwards
/// counts as zero elapsed time.
pub open spec fn spec_silence_elapsed(last_speech_ms: Option<u64>, now_ms: u64, timeout_ms: u64) -> bool {
    match last_speech_ms {
        Option::None => true,
        Option::Some(t) => (if now_ms >= t { now_ms - t } else { 0 }) > timeout_ms,
    }
}

/// One frame outcome folded into the activity gate state: a positive classification
/// stamps the speech time and opens the episode; a negative or failed
/// classification changes nothing.
pub open spec fn gate_apply_outcome(m: GateModel, outcome: Option<bool>, now_ms: u64) -> GateModel {
    if outcome == Some(true) {
        GateModel { last_speech_ms: Some(now_ms), speech_detected: true, ..m }
    } else {
        m
    }
}

/// All frame outcomes of one call folded in order.
pub open spec fn gate_run_outcomes(m: GateModel, outcomes: Seq<Option<bool>>, now_ms: u64) -> GateModel
    decreases outcomes.len(),
{
    if outcomes.len() == 0 {
        m
    } else {
        gate_apply_outcome(gate_run_outcomes(m, outcomes.drop_last(), now_ms), outcomes.last(), now_ms)
    }
}

/// Whether any frame of the call classified as speech.
pub open spec fn spec_any_speech(outcomes: Seq<Option<bool>>) -> bool {
    exists|i: int| 0 <= i < outcomes.len() && outcomes[i] == Some(true)
}

/// The signal returned after the outcomes are folded in: the silence signal
/// fires iff a speech episode is open and silence has outlasted the timeout,
/// and firing closes the episode (edge-triggered).
pub open spec fn gate_signal(m: GateModel, any_speech: bool, now_ms: u64, timeout_ms: u64) -> (GateModel, VadResult) {
    if m.speech_detected && spec_silence_elapsed(m.last_speech_ms, now_ms, timeout_ms) {
        (GateModel { speech_detected: false, ..m }, VadResult::SilenceDetected)
    } else if any_speech {
        (m, VadResult::SpeechDetected)
    } else {
        (m, VadResult::Silence)
    }
}

/// One whole gate step: the chunk joins the pending samples, every complete
/// window is consumed (one outcome each, in order), and the signal is
/// computed from the folded state.
pub open spec fn gate_process(
    m: GateModel,
    frame_size: nat,
    timeout_ms: u64,
    chunk: Seq<i16>,
    outcomes: Seq<Option<bool>>,
    now_ms: u64,
) -> (GateModel, VadResult)
    recommends
        frame_size >= 1,
        outcomes.len() == (m.pending.len() + chunk.len()) / frame_size,
{
    let combined = m.pending + chunk;
    let consumed = (combined.len() / frame_size) * frame_size;
    let folded = gate_run_outcomes(m, outcomes, now_ms);
    let m1 = GateModel { pending: combined.skip(consumed as int), ..folded };
    gate_signal(m1, spec_any_speech(outcomes), now_ms, timeout_ms)
}

/// The activity gate. `reset` must be called on every session start.
pub struct VoiceActivityDetector {
    /// The external classifier handle; opaque.
    pub vad: Vad,
    /// Samples per classification window; fixed by the sample rate.
    pub frame_size: usize,
    /// Samples not yet grouped into a complete window.
    pub buffer: Vec<i16>,
    /// Silence duration after which the stop signal fires.
    pub silence_timeout_ms: u64,
    /// When speech was last classified, if ever.
    pub last_speech_ms: Option<u64>,
    /// Whether a speech episode is open.
    pub speech_detected: bool,
}

impl VoiceActivityDetector {
    pub open spec fn wf(&self) -> bool {
        self.frame_size >= 1
    }

    pub open spec fn model(&self) -> GateModel {
        GateModel {
            pending: self.buffer@,
            last_speech_ms: self.last_speech_ms,
            speech_detected: self.speech_detected,
        }
    }

    /// Parameters that every step preserves.
    pub open spec fn same_setup(&self, other: &Self) -> bool {
        self.frame_size == other.frame_size
            && self.silence_timeout_ms == other.silence_timeout_ms
    }

    /// A fresh or reset gate: nothing pending, no speech observed.
    pub open spec fn is_cleared(&self) -> bool {
        self.buffer@ =~= Seq::<i16>::empty()
            && self.last_speech_ms is None
            && !self.speech_detected
    }

    /// Build a gate for the given sample rate and classifier aggressiveness.
    /// A sensitivity outside 0..=3 falls back to the least aggressive mode.
    /// Fails exactly on a sample rate the classifier does not support.
    pub fn new(sample_rate: u32, sensitivity: i32, silence_timeout_ms: u32) -> (r: Result<Self, VadSetupError>)
        ensures
            r is Ok <==> spec_frame_size_for_rate(sample_rate) is Some,
            r matches Ok(g) ==> {
                &&& g.wf()
                &&& g.is_cleared()
                &&& Some(g.frame_size) == spec_frame_size_for_rate(sample_rate)
                &&& g.silence_timeout_ms == silence_timeout_ms as u64
            },
    {
        let frame_size = match frame_size_for_rate(sample_rate) {
            Some(fs) => fs,
            None => {
                return Err(VadSetupError::UnsupportedSampleRate);
            },
        };
        let mode: i32 = if 0 <= sensitivity && sensitivity <= 3 {
            sensitivity
        } else {
            0
        };
        let vad = vad_new(sample_rate, mode);
        Ok(VoiceActivityDetector {
            vad,
            frame_size,
            buffer: Vec::new(),
            silence_timeout_ms: silence_timeout_ms as u64,
            last_speech_ms: None,
            speech_detected: false,
        })
    }

    /// Clear all hysteresis state; the window size and timeout stay.
    pub fn reset(&mut self)
        ensures
            final(self).is_cleared(),
            old(self).same_setup(final(self)),
            final(self).wf() == old(self).wf(),
    {
        self.buffer.clear();
        self.last_speech_ms = None;
        self.speech_detected = false;
    }

    /// Whether a speech episode is currently open.
    pub fn is_speech_active(&self) -> (r: bool)
        ensures
            r == self.speech_detected,
    {
        self.speech_detected
    }

    /// Number of complete windows that would be consumed if `extra` more
    /// samples arrived now.
    pub fn complete_windows(&self, extra: usize) -> (n: usize)
        requires
            self.wf(),
            self.buffer@.len() + extra <= usize::MAX,
        ensures
            n == ((self.buffer@.len() + extra) as int) / self.frame_size as int,
    {
        (self.buffer.len() + extra) / self.frame_size
    }

    /// Fold a sequence of per-window outcomes into the activity gate state and compute
    /// the signal. This is the deterministic step shared by every path;
    /// `outcomes` must carry one entry per complete window now pending.
    pub fn process_with_outcomes(
        &mut self,
        samples: &Vec<i16>,
        outcomes: &Vec<Option<bool>>,
        now_ms: u64,
    ) -> (r: VadResult)
        requires
            old(self).wf(),
            old(self).buffer@.len() + samples@.len() <= usize::MAX,
            outcomes@.len() == ((old(self).buffer@.len() + samples@.len()) as int) / old(self).frame_size as int,
        ensures
            final(self).wf(),
            old(self).same_setup(final(self)),
            (final(self).model(), r) == gate_process(
                old(self).model(),
                old(self).frame_size as nat,
                old(self).silence_timeout_ms,
                samples@,
                outcomes@,
                now_ms,
            ),
    {
        append_samples(&mut self.buffer, samples);
        let fs = self.frame_size;
        let n_frames = self.buffer.len() / fs;
        proof {
            lemma_consumed_le_len(self.buffer@.len() as int, fs as int);
        }
        let tail = self.buffer.split_off(n_frames * fs);
        self.buffer = tail;
        let ghost mid = *self;
        let r = self.apply_outcomes(outcomes, now_ms);
        proof {
            lemma_run_pending_irrelevant(old(self).model(), mid.model(), outcomes@, now_ms);
            let combined = old(self).buffer@ + samples@;
            let fsn = old(self).frame_size as nat;
            let consumed = (combined.len() / fsn) * fsn;
            assert(mid.buffer@ =~= combined.skip(consumed as int));
            let (want_m, want_r) = gate_process(
                old(self).model(),
                fsn,
                old(self).silence_timeout_ms,
                samples@,
                outcomes@,
                now_ms,
            );
            assert(final(self).model().pending =~= want_m.pending);
            assert(final(self).model() == want_m && r == want_r);
        }
        r
    }

    /// Fold outcomes and compute the signal without touching the pending
    /// buffer.
    fn apply_outcomes(&mut self, outcomes: &Vec<Option<bool>>, now_ms: u64) -> (r: VadResult)
        ensures
            final(self).wf() == old(self).wf(),
            old(self).same_setup(final(self)),
            final(self).buffer@ == old(self).buffer@,
            ({
                let folded = gate_run_outcomes(old(self).model(), outcomes@, now_ms);
                let m1 = GateModel { pending: old(self).buffer@, ..folded };
                (final(self).model(), r) == gate_signal(
                    m1,
                    spec_any_speech(outcomes@),
                    now_ms,
                    old(self).silence_timeout_ms,
                )
            }),
    {
        let mut has_speech = false;
        let mut i: usize = 0;
        while i < outcomes.len()
            invariant
                i <= outcomes@.len(),
                self.buffer@ == old(self).buffer@,
                self.vad == old(self).vad,
                old(self).same_setup(self),
                self.frame_size == old(self).frame_size,
                ({
                    let folded = gate_run_outcomes(old(self).model(), outcomes@.take(i as int), now_ms);
                    self.last_speech_ms == folded.last_speech_ms
                        && self.speech_detected == folded.speech_detected
                }),
                has_speech == spec_any_speech(outcomes@.take(i as int)),
            decreases outcomes@.len() - i,
        {
            proof {
                assert(outcomes@.take(i + 1 as int).drop_last() =~= outcomes@.take(i as int));
                assert(outcomes@.take(i + 1 as int).last() == outcomes@[i as int]);
                if !has_speech && outcomes@[i as int] != Some(true) {
                    assert forall|k: int| 0 <= k < i + 1 implies #[trigger] outcomes@.take(i + 1 as int)[k] != Some(true) by {
                        if k < i {
                            assert(outcomes@.take(i as int)[k] == outcomes@[k]);
                        }
                    }
                }
                if outcomes@[i as int] == Some(true) {
                    assert(spec_any_speech(outcomes@.take(i + 1 as int)));
                }
            }
            match outcomes[i] {
                Some(true) => {
                    has_speech = true;
                    self.last_speech_ms = Some(now_ms);
                    if !self.speech_detected {
                        self.speech_detected = true;
                    }
                },
                _ => {},
            }
            i = i + 1;
        }
        proof {
            assert(outcomes@.take(outcomes@.len() as int) =~= outcomes@);
        }
        let silent = match self.last_speech_ms {
            None => true,
            Some(t) => {
                let elapsed = if now_ms >= t {
                    now_ms - t
                } else {
                    0
                };
                elapsed > self.silence_timeout_ms
            },
        };
        if silent && self.speech_detected {
            self.speech_detected = false;
            VadResult::SilenceDetected
        } else if has_speech {
            VadResult::SpeechDetected
        } else {
            VadResult::Silence
        }
    }

    /// Consume every complete window through the external classifier and fold
    /// the outcomes in. The outcomes themselves are not determined, so the
    /// contract holds for every sequence the classifier may return: one
    /// outcome per complete window.
    pub fn process_audio(&mut self, samples: &Vec<i16>, now_ms: u64) -> (r: VadResult)
        requires
            old(self).wf(),
            old(self).buffer@.len() + samples@.len() <= usize::MAX,
        ensures
            final(self).wf(),
            old(self).same_setup(final(self)),
            exists|outs: Seq<Option<bool>>|
                outs.len() == ((old(self).buffer@.len() + samples@.len()) as int) / old(self).frame_size as int
                    && (final(self).model(), r) == gate_process(
                    old(self).model(),
                    old(self).frame_size as nat,
                    old(self).silence_timeout_ms,
                    samples@,
                    outs,
                    now_ms,
                ),
    {
        append_samples(&mut self.buffer, samples);
        let fs = self.frame_size;
        let n_frames = self.buffer.len() / fs;
        let mut outcomes: Vec<Option<bool>> = Vec::new();
        let mut f: usize = 0;
        proof {
            lemma_consumed_le_len(self.buffer@.len() as int, fs as int);
            assert(n_frames * fs <= self.buffer@.len());
        }
        while f < n_frames
            invariant
                fs == self.frame_size >= 1,
                self.buffer@.len() <= usize::MAX,
                n_frames * fs <= self.buffer@.len(),
                f <= n_frames,
                outcomes@.len() == f,
                self.buffer@ == old(self).buffer@ + samples@,
                old(self).same_setup(self),
                self.last_speech_ms == old(self).last_speech_ms,
                self.speech_detected == old(self).speech_detected,
            decreases n_frames - f,
        {
            proof {
                lemma_frame_bounds(f as int, n_frames as int, fs as int);
                assert(f * fs + fs <= n_frames * fs);
                assert(f * fs + fs <= self.buffer@.len());
            }
            let start = f * fs;
            let mut frame: Vec<i16> = Vec::new();
            let mut j: usize = 0;
            while j < fs
                invariant
                    start + fs <= self.buffer@.len() <= usize::MAX,
                    j <= fs,
                    frame@.len() == j,
                decreases fs - j,
            {
                frame.push(self.buffer[start + j]);
                j = j + 1;
            }
            let o = classify_frame(&mut self.vad, &frame);
            outcomes.push(o);
            f = f + 1;
        }
        let tail = self.buffer.split_off(n_frames * fs);
        self.buffer = tail;
        let ghost mid = *self;
        let ghost outs = outcomes@;
        let r = self.apply_outcomes(&outcomes, now_ms);
        proof {
            lemma_run_pending_irrelevant(old(self).model(), mid.model(), outs, now_ms);
            let combined = old(self).buffer@ + samples@;
            let fsn = old(self).frame_size as nat;
            let consumed = (combined.len() / fsn) * fsn;
            assert(mid.buffer@ =~= combined.skip(consumed as int));
            let (want_m, want_r) = gate_process(
                old(self).model(),
                fsn,
                old(self).silence_timeout_ms,
                samples@,
                outs,
                now_ms,
            );
            assert(final(self).model().pending =~= want_m.pending);
            assert(outs.len() == ((old(self).buffer@.len() + samples@.len()) as int) / old(self).frame_size as int
                && (final(self).model(), r) == gate_process(
                old(self).model(),
                old(self).frame_size as nat,
                old(self).silence_timeout_ms,
                samples@,
                outs,
                now_ms,
            ));
        }
        r
    }
}

/// Append a chunk of samples.
fn append_samples(dst: &mut Vec<i16>, src: &Vec<i16>)
    requires
        old(dst)@.len() + src@.len() <= usize::MAX,
    ensures
        final(dst)@ == old(dst)@ + src@,
{
    let mut i: usize = 0;
    while i < src.len()
        invariant
            i <= src@.len(),
            old(dst)@.len() + src@.len() <= usize::MAX,
            dst@ == old(dst)@ + src@.take(i as int),
        decreases src@.len() - i,
    {
        proof {
            assert(old(dst)@ + src@.take(i + 1 as int) =~= (old(dst)@ + src@.take(i as int)).push(
                src@[i as int],
            ));
        }
        dst.push(src[i]);
        i = i + 1;
    }
    proof {
        assert(src@.take(src@.len() as int) =~= src@);
    }
}

/// A fold over outcomes none of which is positive changes nothing but the
/// pending samples' bookkeeping (which the fold does not touch at all).
proof fn lemma_run_no_speech_unchanged(m: GateModel, outcomes: Seq<Option<bool>>, now_ms: u64)
    requires
        !spec_any_speech(outcomes),
    ensures
        gate_run_outcomes(m, outcomes, now_ms) == m,
    decreases outcomes.len(),
{
    if outcomes.len() > 0 {
        assert(!spec_any_speech(outcomes.drop_last())) by {
            if spec_any_speech(outcomes.drop_last()) {
                let i = choose|i: int|
                    0 <= i < outcomes.drop_last().len() && outcomes.drop_last()[i] == Some(true);
                assert(outcomes[i] == Some(true));
            }
        }
        lemma_run_no_speech_unchanged(m, outcomes.drop_last(), now_ms);
        assert(outcomes[outcomes.len() - 1] != Some(true));
    }
}

/// A fold over outcomes at least one of which is positive stamps the speech
/// time with this call's clock and opens the episode.
proof fn lemma_run_any_speech(m: GateModel, outcomes: Seq<Option<bool>>, now_ms: u64)
    requires
        spec_any_speech(outcomes),
    ensures
        gate_run_outcomes(m, outcomes, now_ms).last_speech_ms == Some(now_ms),
        gate_run_outcomes(m, outcomes, now_ms).speech_detected,
    decreases outcomes.len(),
{
    if outcomes.last() != Some(true) {
        let i = choose|i: int| 0 <= i < outcomes.len() && outcomes[i] == Some(true);
        assert(outcomes.drop_last()[i] == Some(true));
        lemma_run_any_speech(m, outcomes.drop_last(), now_ms);
    }
}

/// Law: without an open speech episode and without a positive frame, a gate
/// step signals plain silence — in particular, the silence signal can never
/// fire twice without intervening speech, because firing closes the episode.
pub proof fn lemma_no_signal_without_episode(
    m: GateModel,
    frame_size: nat,
    timeout_ms: u64,
    chunk: Seq<i16>,
    outcomes: Seq<Option<bool>>,
    now_ms: u64,
)
    requires
        frame_size >= 1,
        !m.speech_detected,
        !spec_any_speech(outcomes),
    ensures
        gate_process(m, frame_size, timeout_ms, chunk, outcomes, now_ms).1 == VadResult::Silence,
        !gate_process(m, frame_size, timeout_ms, chunk, outcomes, now_ms).0.speech_detected,
{
    lemma_run_no_speech_unchanged(m, outcomes, now_ms);
}

/// Law: a gate step with at least one positive frame signals speech — never
/// the silence signal — and opens the episode with the speech time stamped at
/// this step's clock.
pub proof fn lemma_speech_opens_episode(
    m: GateModel,
    frame_size: nat,
    timeout_ms: u64,
    chunk: Seq<i16>,
    outcomes: Seq<Option<bool>>,
    now_ms: u64,
)
    requires
        frame_size >= 1,
        spec_any_speech(outcomes),
    ensures
        gate_process(m, frame_size, timeout_ms, chunk, outcomes, now_ms).1
            == VadResult::SpeechDetected,
        gate_process(m, frame_size, timeout_ms, chunk, outcomes, now_ms).0.speech_detected,
        gate_process(m, frame_size, timeout_ms, chunk, outcomes, now_ms).0.last_speech_ms
            == Some(now_ms),
{
    lemma_run_any_speech(m, outcomes, now_ms);
}

/// Law: with an open episode and no positive frame, the silence signal fires
/// exactly when silence has outlasted the timeout, and firing closes the
/// episode.
pub proof fn lemma_silence_signal_iff_timeout(
    m: GateModel,
    frame_size: nat,
    timeout_ms: u64,
    chunk: Seq<i16>,
    outcomes: Seq<Option<bool>>,
    now_ms: u64,
)
    requires
        frame_size >= 1,
        m.speech_detected,
        !spec_any_speech(outcomes),
    ensures
        ({
            let (m1, r) = gate_process(m, frame_size, timeout_ms, chunk, outcomes, now_ms);
            &&& (r == VadResult::SilenceDetected <==> spec_silence_elapsed(
                m.last_speech_ms,
                now_ms,
                timeout_ms,
            ))
            &&& (r == VadResult::SilenceDetected ==> !m1.speech_detected)
            &&& (r != VadResult::SilenceDetected ==> r == VadResult::Silence && m1.speech_detected)
        }),
{
    lemma_run_no_speech_unchanged(m, outcomes, now_ms);
}

/// Law: one speech episode yields exactly one silence signal. A step with
/// speech opens the episode; a later all-negative step past the timeout fires
/// the signal once; any further all-negative step signals plain silence — the
/// signal cannot repeat until speech is observed again.
pub proof fn lemma_one_signal_per_episode(
    m0: GateModel,
    frame_size: nat,
    timeout_ms: u64,
    chunk1: Seq<i16>,
    outcomes1: Seq<Option<bool>>,
    now1_ms: u64,
    chunk2: Seq<i16>,
    outcomes2: Seq<Option<bool>>,
    now2_ms: u64,
    chunk3: Seq<i16>,
    outcomes3: Seq<Option<bool>>,
    now3_ms: u64,
)
    requires
        frame_size >= 1,
        spec_any_speech(outcomes1),
        !spec_any_speech(outcomes2),
        !spec_any_speech(outcomes3),
        now2_ms >= now1_ms,
        now2_ms - now1_ms > timeout_ms,
    ensures
        ({
            let (m1, r1) = gate_process(m0, frame_size, timeout_ms, chunk1, outcomes1, now1_ms);
            let (m2, r2) = gate_process(m1, frame_size, timeout_ms, chunk2, outcomes2, now2_ms);
            let (m3, r3) = gate_process(m2, frame_size, timeout_ms, chunk3, outcomes3, now3_ms);
            &&& r1 == VadResult::SpeechDetected
            &&& r2 == VadResult::SilenceDetected
            &&& r3 == VadResult::Silence
        }),
{
    let (m1, r1) = gate_process(m0, frame_size, timeout_ms, chunk1, outcomes1, now1_ms);
    lemma_speech_opens_episode(m0, frame_size, timeout_ms, chunk1, outcomes1, now1_ms);
    let (m2, r2) = gate_process(m1, frame_size, timeout_ms, chunk2, outcomes2, now2_ms);
    lemma_silence_signal_iff_timeout(m1, frame_size, timeout_ms, chunk2, outcomes2, now2_ms);
    lemma_no_signal_without_episode(m2, frame_size, timeout_ms, chunk3, outcomes3, now3_ms);
}

/// Folding outcomes touches only the speech fields, so two states that agree
/// on them keep agreeing whatever their pending samples are.
proof fn lemma_run_pending_irrelevant(m1: GateModel, m2: GateModel, outcomes: Seq<Option<bool>>, now_ms: u64)
    requires
        m1.last_speech_ms == m2.last_speech_ms,
        m1.speech_detected == m2.speech_detected,
    ensures
        gate_run_outcomes(m1, outcomes, now_ms).last_speech_ms == gate_run_outcomes(
            m2,
            outcomes,
            now_ms,
        ).last_speech_ms,
        gate_run_outcomes(m1, outcomes, now_ms).speech_detected == gate_run_outcomes(
            m2,
            outcomes,
            now_ms,
        ).speech_detected,
    decreases outcomes.len(),
{
    if outcomes.len() > 0 {
        lemma_run_pending_irrelevant(m1, m2, outcomes.drop_last(), now_ms);
    }
}

/// `(n / fs) * fs <= n` for positive `fs`.
proof fn lemma_consumed_le_len(n: int, fs: int)
    requires
        n >= 0,
        fs >= 1,
    ensures
        (n / fs) * fs <= n,
        n / fs >= 0,
{
    vstd::arithmetic::div_mod::lemma_fundamental_div_mod(n, fs);
    vstd::arithmetic::div_mod::lemma_mod_division_less_than_divisor(n, fs);
    vstd::arithmetic::div_mod::lemma_div_pos_is_pos(n, fs);
    assert((n / fs) * fs == fs * (n / fs)) by (nonlinear_arith);
}

/// Frame `f` of `n` complete frames lies within the first `n * fs` samples.
proof fn lemma_frame_bounds(f: int, n: int, fs: int)
    requires
        0 <= f < n,
        fs >= 1,
    ensures
        f * fs + fs <= n * fs,
        0 <= f * fs,
{
    assert(f * fs + fs <= n * fs && 0 <= f * fs) by (nonlinear_arith)
        requires
            0 <= f < n,
            fs >= 1,
    ;
}

} // verus!
