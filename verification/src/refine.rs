//! The text-refinement stage: prompt construction, token budgeting, and the
//! timeout/fallback policy applied to the external text service's outcome.
//!
//! The service call itself — a network request under a bounded timeout —
//! happens in the surrounding application; what to do with each possible
//! outcome is decided here. Retries are not attempted: the configured retry
//! count is carried but not enforced, and fallback is immediate on the first
//! failure or timeout.

use vstd::prelude::*;
use vstd::string::{StrSliceExecFns, StringExecFns};
use crate::chars::{chars_to_string, spec_trim, str_to_chars, trim_chars};
use crate::textproc::{spec_word_count, word_count};

verus! {

/// Configuration of the refinement stage. The service's sampling temperature
/// is a floating-point knob passed through by the application and not part
/// of the decisions made here.
pub struct TextRefinementConfig {
    pub enabled: bool,
    pub model_name: String,
    pub ollama_url: String,
    pub device: String,
    pub cpu_threads: u32,
    pub quantization: String,
    pub batch_size: u32,
    /// Must contain the `{text}` placeholder.
    pub prompt_template: String,
    pub max_tokens: u32,
    pub timeout_ms: u64,
    /// Carried for configuration compatibility; no retry loop enforces it.
    pub max_retries: u32,
    pub fallback_on_timeout: bool,
}

impl TextRefinementConfig {
    /// Whether the refinement stage is present at all.
    pub fn is_enabled(&self) -> (r: bool)
        ensures
            r == self.enabled,
    {
        self.enabled
    }
}

impl Default for TextRefinementConfig {
    /// The stock configuration: a small local model, an eight-second
    /// timeout, and fallback to the original text enabled.
    fn default() -> (r: Self)
        ensures
            r.enabled,
            r.model_name@ == "gemma3:1b"@,
            r.ollama_url@ == "http://localhost:11434"@,
            r.max_tokens == 150,
            r.timeout_ms == 8000,
            r.max_retries == 1,
            r.fallback_on_timeout,
    {
        TextRefinementConfig {
            enabled: true,
            model_name: String::from_str("gemma3:1b"),
            ollama_url: String::from_str("http://localhost:11434"),
            device: String::from_str("cpu"),
            cpu_threads: 0,
            quantization: String::from_str("int4"),
            batch_size: 1,
            prompt_template: String::from_str(
                "Fix transcription errors in this speech-to-text from a developer/technical context:\n\nCommon fixes needed:\n\u{2022} \"cooper tease\" \u{2192} \"Kubernetes\" \n\u{2022} \"docker\" \u{2192} \"Docker\"\n\u{2022} \"get hub\" \u{2192} \"GitHub\"\n\u{2022} \"pie thon\" \u{2192} \"Python\" \n\u{2022} \"A-P-I\" \u{2192} \"API\"\n\u{2022} \"S-S-H\" \u{2192} \"SSH\"\n\u{2022} \"react J-S\" \u{2192} \"React.js\"\n\u{2022} Technical acronyms spelled out \u{2192} proper form\n\nOriginal: \"{text}\"\nCorrected:",
            ),
            max_tokens: 150,
            timeout_ms: 8000,
            max_retries: 1,
            fallback_on_timeout: true,
        }
    }
}

/// Every occurrence of `pat` in `s` replaced by `rep`, scanning left to
/// right without overlap.
pub open spec fn spec_replace_all(s: Seq<char>, pat: Seq<char>, rep: Seq<char>) -> Seq<char>
    recommends
        pat.len() >= 1,
    decreases s.len()
        when pat.len() >= 1
{
    if s.len() < pat.len() {
        s
    } else if s.take(pat.len() as int) == pat {
        rep + spec_replace_all(s.skip(pat.len() as int), pat, rep)
    } else {
        seq![s[0]] + spec_replace_all(s.skip(1), pat, rep)
    }
}

/// Whether `pat` occurs in `v` at `start`.
fn window_matches(v: &Vec<char>, start: usize, pat: &Vec<char>) -> (r: bool)
    requires
        start + pat@.len() <= v@.len(),
    ensures
        r == (v@.subrange(start as int, start as int + pat@.len() as int) == pat@),
{
    let p = pat.len();
    let vlen = v.len();
    let mut k: usize = 0;
    while k < p
        invariant
            k <= p == pat@.len(),
            start + p <= vlen == v@.len(),
            forall|j: int| 0 <= j < k ==> v@[start + j] == pat@[j],
        decreases p - k,
    {
        if v[start + k] != pat[k] {
            proof {
                let w = v@.subrange(start as int, start as int + p as int);
                assert(w[k as int] != pat@[k as int]);
            }
            return false;
        }
        k = k + 1;
    }
    proof {
        assert(v@.subrange(start as int, start as int + p as int) =~= pat@);
    }
    true
}

/// Replace every occurrence of `pat` with `rep`, left to right.
pub fn replace_all(text: &Vec<char>, pat: &Vec<char>, rep: &Vec<char>) -> (out: Vec<char>)
    requires
        pat@.len() >= 1,
    ensures
        out@ == spec_replace_all(text@, pat@, rep@),
{
    let n = text.len();
    let p = pat.len();
    let mut out: Vec<char> = Vec::new();
    let mut i: usize = 0;
    proof {
        assert(text@.skip(0) =~= text@);
    }
    while i < n
        invariant
            i <= n == text@.len(),
            p == pat@.len() >= 1,
            spec_replace_all(text@, pat@, rep@) == out@ + spec_replace_all(
                text@.skip(i as int),
                pat@,
                rep@,
            ),
        decreases n - i,
    {
        if n - i >= p && window_matches(text, i, pat) {
            proof {
                assert(text@.skip(i as int).take(p as int) =~= text@.subrange(
                    i as int,
                    i as int + p as int,
                ));
                assert(text@.skip(i as int).skip(p as int) =~= text@.skip(i + p as int));
            }
            let ghost before = out@;
            let mut k: usize = 0;
            while k < rep.len()
                invariant
                    k <= rep@.len(),
                    out@ == before + rep@.take(k as int),
                decreases rep@.len() - k,
            {
                proof {
                    assert(before + rep@.take(k + 1 as int) =~= (before + rep@.take(
                        k as int,
                    )).push(rep@[k as int]));
                }
                out.push(rep[k]);
                k = k + 1;
            }
            proof {
                assert(rep@.take(rep@.len() as int) =~= rep@);
                assert(before + rep@ + spec_replace_all(text@.skip(i + p as int), pat@, rep@)
                    =~= out@ + spec_replace_all(text@.skip(i + p as int), pat@, rep@));
            }
            i = i + p;
        } else {
            proof {
                assert(text@.skip(i as int)[0] == text@[i as int]);
                assert(text@.skip(i as int).skip(1) =~= text@.skip(i + 1 as int));
                if n - i >= p {
                    assert(text@.skip(i as int).take(p as int) =~= text@.subrange(
                        i as int,
                        i as int + p as int,
                    ));
                }
                let ghost before = out@;
                assert(before + (seq![text@[i as int]] + spec_replace_all(
                    text@.skip(i + 1 as int),
                    pat@,
                    rep@,
                )) =~= before.push(text@[i as int]) + spec_replace_all(
                    text@.skip(i + 1 as int),
                    pat@,
                    rep@,
                ));
            }
            out.push(text[i]);
            i = i + 1;
        }
    }
    proof {
        assert(text@.skip(n as int) =~= Seq::<char>::empty());
    }
    out
}

/// The prompt sent to the text service: the template with every `{text}`
/// placeholder replaced by the transcript.
pub open spec fn spec_build_prompt(template: Seq<char>, text: Seq<char>) -> Seq<char> {
    spec_replace_all(template, "{text}"@, text)
}

/// Substitute the transcript into the prompt template.
pub fn build_prompt(template: &str, text: &str) -> (r: String)
    ensures
        r@ == spec_build_prompt(template@, text@),
{
    proof {
        reveal_strlit("{text}");
    }
    let template_chars = str_to_chars(template);
    let text_chars = str_to_chars(text);
    let pat = str_to_chars("{text}");
    let out = replace_all(&template_chars, &pat, &text_chars);
    chars_to_string(&out)
}

/// The token budget for one refinement call: the input's word count plus a
/// fixed buffer for corrections, but at least the configured maximum. The
/// buffer addition saturates at the machine limit.
pub open spec fn spec_token_budget(word_count: int, max_tokens: int) -> int {
    let padded = if word_count + 50 <= usize::MAX {
        word_count + 50
    } else {
        usize::MAX as int
    };
    if padded >= max_tokens {
        padded
    } else {
        max_tokens
    }
}

/// Compute the token budget for refining `text`.
pub fn token_budget(text: &str, max_tokens: u32) -> (n: usize)
    ensures
        n == spec_token_budget(spec_word_count(text@) as int, max_tokens as int),
{
    let wc = word_count(text);
    let padded = if wc <= usize::MAX - 50 {
        wc + 50
    } else {
        usize::MAX
    };
    let mt = max_tokens as usize;
    if padded >= mt {
        padded
    } else {
        mt
    }
}

/// What the external text service's call came to, as the application
/// observed it: a completed response, a service failure, or the bounded
/// timeout elapsing first.
pub enum ServiceOutcome {
    Completed(String),
    Failed,
    TimedOut,
}

/// Why refinement surfaced a failure instead of text.
#[derive(Debug, Clone, Copy, PartialEq, Eq, Structural)]
pub enum RefineError {
    ServiceFailed,
    TimedOut,
}

/// The refinement policy: a completed response is trimmed and returned; on
/// failure or timeout the original text is returned unchanged when fallback
/// is enabled, and the failure is surfaced otherwise.
pub open spec fn spec_refine_outcome(
    outcome: ServiceOutcome,
    fallback_on_timeout: bool,
    original: Seq<char>,
) -> Result<Seq<char>, RefineError> {
    match outcome {
        ServiceOutcome::Completed(t) => Ok(spec_trim(t@)),
        ServiceOutcome::Failed => if fallback_on_timeout {
            Ok(original)
        } else {
            Err(RefineError::ServiceFailed)
        },
        ServiceOutcome::TimedOut => if fallback_on_timeout {
            Ok(original)
        } else {
            Err(RefineError::TimedOut)
        },
    }
}

/// Decide what one refinement call returns, given how the service call came
/// out. No retry is attempted: fallback, when enabled, is immediate.
pub fn refine_outcome(
    outcome: ServiceOutcome,
    fallback_on_timeout: bool,
    original: &str,
) -> (r: Result<String, RefineError>)
    ensures
        r matches Ok(s) ==> spec_refine_outcome(outcome, fallback_on_timeout, original@) == Ok::<
            Seq<char>,
            RefineError,
        >(s@),
        r matches Err(e) ==> spec_refine_outcome(outcome, fallback_on_timeout, original@) == Err::<
            Seq<char>,
            RefineError,
        >(e),
{
    match outcome {
        ServiceOutcome::Completed(t) => {
            let chars = str_to_chars(t.as_str());
            let trimmed = trim_chars(&chars);
            Ok(chars_to_string(&trimmed))
        },
        ServiceOutcome::Failed => {
            if fallback_on_timeout {
                Ok(String::from_str(original))
            } else {
                Err(RefineError::ServiceFailed)
            }
        },
        ServiceOutcome::TimedOut => {
            if fallback_on_timeout {
                Ok(String::from_str(original))
            } else {
                Err(RefineError::TimedOut)
            }
        },
    }
}

/// Law: when the service does not respond within the bounded timeout and
/// fallback is enabled, the refined text is the original input, unchanged.
pub proof fn lemma_timeout_falls_back(original: Seq<char>)
    ensures
        spec_refine_outcome(ServiceOutcome::TimedOut, true, original) == Ok::<
            Seq<char>,
            RefineError,
        >(original),
{
}

/// A one-line description of the configured service and model.
pub fn model_info(config: &TextRefinementConfig) -> (r: String)
    ensures
        r@ == "Ollama model: "@ + config.model_name@ + " at "@ + config.ollama_url@,
{
    let r = String::from_str("Ollama model: ").concat(config.model_name.as_str()).concat(
        " at ",
    ).concat(config.ollama_url.as_str());
    proof {
        assert(r@ =~= "Ollama model: "@ + config.model_name@ + " at "@ + config.ollama_url@);
    }
    r
}

} // verus!
