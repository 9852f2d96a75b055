//! One recognition pass: the checks that precede it, the engine
//! parameters it runs with, and the joining of its segments into final
//! text.
//!
//! The blocking native call itself runs outside the core, on a worker
//! with an enlarged stack, raced against a timeout.

use vstd::prelude::*;
use crate::audio::silent_spec;
use crate::audio::is_silent;
use crate::engine::WhisperEngine;
use crate::errors::AppError;
use crate::text::ci_eq_spec;
use crate::text::concat_spec;
use crate::text::concat_strings;
use crate::text::str_eq_ignore_ascii_case;
use crate::text::trim_spec;
use crate::text::trim_str;

verus! {

/// How long a recognition pass may run before the caller abandons it.
pub const INFERENCE_TIMEOUT_SECS: u64 = 120;

/// Stack budget of the inference worker: the recognition computation is
/// stack-intensive and a default thread stack overflows.
pub const INFERENCE_STACK_BYTES: usize = 64 * 1024 * 1024;

/// Stack budget of the model-loading worker.
pub const LOAD_STACK_BYTES: usize = 32 * 1024 * 1024;

/// Below this many samples at the target rate (five seconds), inference
/// hints single-segment mode to cut overhead.
pub const SHORT_AUDIO_SAMPLES: usize = 80000;

/// Thread count for a recognition pass: capped at four when limited to
/// physical cores (oversubscription-prone platforms), at eight
/// otherwise, and never below one.
pub open spec fn thread_budget_spec(physical: int, logical: int, limit_to_physical: bool) -> int {
    let capped = if limit_to_physical {
        if physical < 4 {
            physical
        } else {
            4
        }
    } else {
        if logical < 8 {
            logical
        } else {
            8
        }
    };
    if capped < 1 {
        1
    } else {
        capped
    }
}

/// Cap a machine's core counts to the inference thread budget.
pub fn thread_budget(physical: usize, logical: usize, limit_to_physical: bool) -> (r: usize)
    ensures
        r == thread_budget_spec(physical as int, logical as int, limit_to_physical),
{
    let capped: usize = if limit_to_physical {
        if physical < 4 {
            physical
        } else {
            4
        }
    } else {
        if logical < 8 {
            logical
        } else {
            8
        }
    };
    if capped < 1 {
        1
    } else {
        capped
    }
}

/// Relies on num_cpus::get_physical: the number of physical cores, at
/// least one.
#[verifier::external_body]
fn physical_cpu_count() -> (r: usize)
    ensures
        r >= 1,
{
    num_cpus::get_physical()
}

/// Relies on num_cpus::get: the number of logical cores, at least one.
#[verifier::external_body]
fn logical_cpu_count() -> (r: usize)
    ensures
        r >= 1,
{
    num_cpus::get()
}

/// Thread count to hand the engine on this machine.  Whatever the
/// machine reports, the count stays within the budget's caps.
pub fn recommended_threads(limit_to_physical: bool) -> (r: usize)
    ensures
        1 <= r <= 8,
        limit_to_physical ==> r <= 4,
{
    let physical = physical_cpu_count();
    let logical = logical_cpu_count();
    thread_budget(physical, logical, limit_to_physical)
}

/// Whether a language setting asks for automatic detection: `auto` (in
/// any ASCII case) or an empty string.
pub open spec fn auto_language_spec(language: Seq<char>) -> bool {
    language.len() == 0 || ci_eq_spec(language, "auto"@)
}

/// The parameters of one recognition pass, fixed before the blocking
/// call starts.
#[derive(Debug)]
pub struct InferencePlan {
    /// Language to recognize; `None` asks the engine to detect it.
    pub language: Option<String>,
    /// Worker threads the engine may use.
    pub n_threads: usize,
    /// Hint that the audio is short enough for one segment.
    pub single_segment: bool,
    /// Recognition keeps the spoken language; never translate.
    pub translate: bool,
}

impl WhisperEngine {
    /// Gate and configure one recognition pass: an unloaded engine, an
    /// empty buffer, or silence is refused before any engine work; an
    /// accepted buffer yields the engine parameters.
    pub fn prepare_transcribe(
        &self,
        audio: &Vec<i16>,
        language: &str,
        limit_threads_to_physical: bool,
    ) -> (r: Result<InferencePlan, AppError>)
        requires
            self.wf(),
        ensures
            self.loaded_model() is None ==> r == Err::<InferencePlan, AppError>(
                AppError::EngineNotLoaded,
            ),
            self.loaded_model() is Some && audio@.len() == 0 ==> r == Err::<
                InferencePlan,
                AppError,
            >(AppError::EmptyAudio),
            self.loaded_model() is Some && audio@.len() > 0 && silent_spec(audio@) ==> r
                == Err::<InferencePlan, AppError>(AppError::SilentAudio),
            self.loaded_model() is Some && audio@.len() > 0 && !silent_spec(audio@) ==> match r {
                Ok(plan) => {
                    &&& match plan.language {
                        Some(l) => !auto_language_spec(language@) && l@ == language@,
                        None => auto_language_spec(language@),
                    }
                    &&& 1 <= plan.n_threads <= 8
                    &&& (limit_threads_to_physical ==> plan.n_threads <= 4)
                    &&& plan.single_segment == (audio@.len() < SHORT_AUDIO_SAMPLES)
                    &&& plan.translate == false
                },
                Err(_) => false,
            },
    {
        if !self.is_loaded() {
            return Err(AppError::EngineNotLoaded);
        }
        if audio.len() == 0 {
            return Err(AppError::EmptyAudio);
        }
        if is_silent(audio) {
            return Err(AppError::SilentAudio);
        }
        let auto = language.unicode_len() == 0 || str_eq_ignore_ascii_case(language, "auto");
        let lang = if auto {
            None
        } else {
            Some(language.to_owned())
        };
        let n_threads = recommended_threads(limit_threads_to_physical);
        Ok(
            InferencePlan {
                language: lang,
                n_threads,
                single_segment: audio.len() < SHORT_AUDIO_SAMPLES,
                translate: false,
            },
        )
    }
}

/// Join the segments a recognition pass returned, in order, and strip
/// surrounding whitespace.
pub fn assemble_transcript(segments: &Vec<String>) -> (r: String)
    ensures
        r@ == trim_spec(concat_spec(segments@.map_values(|s: String| s@))),
{
    let joined = concat_strings(segments);
    trim_str(joined.as_str())
}

/// Law: a non-empty all-zero buffer is silent, so inference refuses it
/// before any engine invocation.
pub proof fn lemma_all_zero_is_silent(s: Seq<i16>)
    requires
        s.len() >= 1,
        forall|i: int| 0 <= i < s.len() ==> #[trigger] s[i] == 0,
    ensures
        silent_spec(s),
{
    lemma_all_zero_energy(s);
    assert(s.len() * 32767 * 32767 > 0) by (nonlinear_arith)
        requires
            s.len() >= 1,
    ;
}

proof fn lemma_all_zero_energy(s: Seq<i16>)
    requires
        forall|i: int| 0 <= i < s.len() ==> #[trigger] s[i] == 0,
    ensures
        crate::audio::energy_spec(s) == 0,
    decreases s.len(),
{
    if s.len() > 0 {
        lemma_all_zero_energy(s.drop_last());
    }
}

} // verus!
