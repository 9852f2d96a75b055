//! Model-lifecycle bookkeeping: at most one engine instance at a time,
//! matching a requested model identity.
//!
//! The expensive native construction itself happens outside the core;
//! this type decides when that construction is owed, records its
//! outcome, and keeps the invariant that the recorded model name
//! truthfully reflects engine presence.

use vstd::prelude::*;
use crate::errors::AppError;
use crate::model::MIN_MODEL_FILE_BYTES;
use crate::model::WhisperModel;
use crate::model::filename_spec;

verus! {

/// What an ensure-loaded request must do next.
#[derive(Debug, Clone, Copy, PartialEq, Eq, Structural)]
pub enum LoadDecision {
    /// The very model is already instantiated: the expensive
    /// construction is skipped.
    AlreadyLoaded,
    /// The model file is plausible and differs from what is loaded: the
    /// construction is owed.
    NeedsLoad,
}

/// Whether a reported model-file size clears the plausibility bound;
/// `None` stands for an absent file.
pub open spec fn file_plausible_spec(file_size: Option<u64>) -> bool {
    match file_size {
        Some(n) => n >= MIN_MODEL_FILE_BYTES,
        None => false,
    }
}

/// The decision an ensure-loaded request comes to, given the recorded
/// model of the engine and the size of the requested model's file.
pub open spec fn ensure_decision_spec(
    current: Option<Seq<char>>,
    m: WhisperModel,
    file_size: Option<u64>,
) -> Result<LoadDecision, AppError> {
    if current == Some(filename_spec(m)) {
        Ok(LoadDecision::AlreadyLoaded)
    } else if !file_plausible_spec(file_size) {
        Err(AppError::ModelFileInvalid)
    } else {
        Ok(LoadDecision::NeedsLoad)
    }
}

/// The recorded model after a successful construction for `m`.
pub open spec fn after_load_success_spec(m: WhisperModel) -> Option<Seq<char>> {
    Some(filename_spec(m))
}

/// Bookkeeping for the single engine instance.
pub struct WhisperEngine {
    /// Whether a native engine context is currently constructed.
    context_present: bool,
    /// File name of the model the context was built from.
    current_model: Option<String>,
}

impl WhisperEngine {
    /// The model the engine is loaded with, if any.
    pub closed spec fn loaded_model(self) -> Option<Seq<char>> {
        match self.current_model {
            Some(s) => Some(s@),
            None => None,
        }
    }

    /// The recorded model name truthfully reflects context presence:
    /// never present without a name, never named without a context.
    pub closed spec fn wf(self) -> bool {
        self.context_present == self.current_model is Some
    }

    /// A fresh engine holds nothing.
    pub fn new() -> (r: Self)
        ensures
            r.wf(),
            r.loaded_model() is None,
    {
        WhisperEngine { context_present: false, current_model: None }
    }

    /// Whether an engine context is constructed.
    pub fn is_loaded(&self) -> (r: bool)
        requires
            self.wf(),
        ensures
            r == (self.loaded_model() is Some),
    {
        self.context_present
    }

    /// The file name of the loaded model, if any.
    pub fn current_model_name(&self) -> (r: Option<&str>)
        ensures
            match r {
                Some(s) => self.loaded_model() == Some(s@),
                None => self.loaded_model() is None,
            },
    {
        match &self.current_model {
            Some(s) => Some(s.as_str()),
            None => None,
        }
    }

    /// Decide what an ensure-loaded request for `model` must do, given
    /// the size of the model's file (`None`: the file is absent).  The
    /// engine itself is untouched whatever the decision.
    pub fn ensure_loaded_step(&self, model: &WhisperModel, file_size: Option<u64>) -> (r: Result<
        LoadDecision,
        AppError,
    >)
        ensures
            r == ensure_decision_spec(self.loaded_model(), *model, file_size),
    {
        let same = match &self.current_model {
            Some(s) => crate::text::str_eq(s.as_str(), model.filename()),
            None => false,
        };
        if same {
            Ok(LoadDecision::AlreadyLoaded)
        } else {
            match file_size {
                Some(n) => if n >= MIN_MODEL_FILE_BYTES {
                    Ok(LoadDecision::NeedsLoad)
                } else {
                    Err(AppError::ModelFileInvalid)
                },
                None => Err(AppError::ModelFileInvalid),
            }
        }
    }

    /// Record that the native construction for `model` succeeded; any
    /// previously recorded engine is replaced.
    pub fn note_load_success(&mut self, model: &WhisperModel)
        ensures
            final(self).wf(),
            final(self).loaded_model() == after_load_success_spec(*model),
    {
        self.context_present = true;
        self.current_model = Some(model.filename().to_owned());
    }

    /// Record that the native construction failed: whatever was loaded
    /// before stays untouched.
    pub fn note_load_failure(&mut self)
        ensures
            *final(self) == *old(self),
    {
    }

    /// Release the engine if present; a no-op otherwise.  Never fails.
    pub fn unload(&mut self)
        ensures
            final(self).wf(),
            final(self).loaded_model() is None,
    {
        self.context_present = false;
        self.current_model = None;
    }
}

/// Law: ensuring a model right after a successful load of that same
/// model decides `AlreadyLoaded` — the expensive construction happens
/// only once — whatever the model file looks like by then.
pub proof fn lemma_second_ensure_is_noop(m: WhisperModel, file_size: Option<u64>)
    ensures
        ensure_decision_spec(after_load_success_spec(m), m, file_size) == Ok::<
            LoadDecision,
            AppError,
        >(LoadDecision::AlreadyLoaded),
{
}

/// Law: an ensure-loaded request for a model whose file is absent or
/// truncated, and which is not the loaded one, is refused with
/// `ModelFileInvalid`; the decision step never mutates the engine, so a
/// previously loaded engine stays untouched.
pub proof fn lemma_missing_file_never_loads(
    current: Option<Seq<char>>,
    m: WhisperModel,
    file_size: Option<u64>,
)
    requires
        current != Some(filename_spec(m)),
        !file_plausible_spec(file_size),
    ensures
        ensure_decision_spec(current, m, file_size) == Err::<LoadDecision, AppError>(
            AppError::ModelFileInvalid,
        ),
{
}

} // verus!
