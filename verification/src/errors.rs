//! The error taxonomy of the pipeline.  Every failure the core can
//! decide is a variant here; callers receive it typed, never as a crash.

use vstd::prelude::*;

verus! {

/// Everything the transcription core can refuse or fail with.
#[derive(Debug, Clone, Copy, PartialEq, Eq, Structural)]
pub enum AppError {
    /// No usable capture device, or its configuration was refused.
    DeviceError,
    /// A start request arrived while a recording was already running.
    AlreadyRecording,
    /// A stop request arrived with no recording running.
    NotRecording,
    /// A request arrived in a session state that does not admit it.
    InvalidState,
    /// A transcription request found no pending audio.
    NoAudioData,
    /// The configured model name names no supported model.
    UnknownModel,
    /// The selected model has not been downloaded yet.
    ModelNotDownloaded,
    /// The model file is absent or too small to be complete.
    ModelFileInvalid,
    /// The native engine refused to construct from the model file.
    ModelLoadError,
    /// An inference request arrived with no engine loaded.
    EngineNotLoaded,
    /// The audio handed to inference holds no samples.
    EmptyAudio,
    /// The audio handed to inference is below the silence threshold.
    SilentAudio,
    /// The native recognition call failed mid-run.
    InferenceFailure,
    /// The recognition call outlived its time bound.
    InferenceTimeout,
    /// Cloud mode is selected but no API key is configured.
    MissingApiKey,
    /// Cloud mode is selected but no base address is configured.
    MissingBaseUrl,
    /// The cloud collaborator reported a failure of its own.
    CloudFailure,
    /// A deletion request named an id no history item carries.
    HistoryItemNotFound,
    /// The day's translation allowance is used up.
    TranslationQuotaExceeded,
    /// The translation collaborator returned nothing usable.
    TranslationFailed,
}

impl AppError {
    /// A short, stable description of the error.
    pub fn message(&self) -> (r: &'static str)
        ensures
            r@.len() > 0,
    {
        let m: &'static str = match self {
            AppError::DeviceError => "no usable input device",
            AppError::AlreadyRecording => "recording is already running",
            AppError::NotRecording => "no recording is running",
            AppError::InvalidState => "operation not allowed in this state",
            AppError::NoAudioData => "no recorded audio is pending",
            AppError::UnknownModel => "unknown model name",
            AppError::ModelNotDownloaded => "model has not been downloaded",
            AppError::ModelFileInvalid => "model file is missing or truncated",
            AppError::ModelLoadError => "model failed to load",
            AppError::EngineNotLoaded => "no model is loaded",
            AppError::EmptyAudio => "audio data is empty",
            AppError::SilentAudio => "audio is too quiet to transcribe",
            AppError::InferenceFailure => "recognition failed",
            AppError::InferenceTimeout => "recognition timed out",
            AppError::MissingApiKey => "cloud mode needs an API key",
            AppError::MissingBaseUrl => "cloud mode needs a base URL",
            AppError::CloudFailure => "cloud transcription failed",
            AppError::HistoryItemNotFound => "no history item has that id",
            AppError::TranslationQuotaExceeded => "translation allowance used up",
            AppError::TranslationFailed => "translation failed",
        };
        proof {
            reveal_strlit("no usable input device");
            reveal_strlit("recording is already running");
            reveal_strlit("no recording is running");
            reveal_strlit("operation not allowed in this state");
            reveal_strlit("no recorded audio is pending");
            reveal_strlit("unknown model name");
            reveal_strlit("model has not been downloaded");
            reveal_strlit("model file is missing or truncated");
            reveal_strlit("model failed to load");
            reveal_strlit("no model is loaded");
            reveal_strlit("audio data is empty");
            reveal_strlit("audio is too quiet to transcribe");
            reveal_strlit("recognition failed");
            reveal_strlit("recognition timed out");
            reveal_strlit("cloud mode needs an API key");
            reveal_strlit("cloud mode needs a base URL");
            reveal_strlit("cloud transcription failed");
            reveal_strlit("no history item has that id");
            reveal_strlit("translation allowance used up");
            reveal_strlit("translation failed");
        }
        m
    }
}

} // verus!
