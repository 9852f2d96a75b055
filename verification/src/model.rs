//! Recognition-model identities: the fixed set of supported model sizes,
//! their file names, download addresses and file-plausibility bound.

use vstd::prelude::*;
use crate::errors::AppError;
use crate::text::ci_eq_spec;
use crate::text::str_eq_ignore_ascii_case;

verus! {

/// The smallest byte count a complete model file can plausibly have;
/// anything smaller is a truncated download.
pub const MIN_MODEL_FILE_BYTES: u64 = 1048576;

/// The supported model sizes, smallest to largest.
#[derive(Debug, Clone, Copy, PartialEq, Eq, Structural)]
pub enum WhisperModel {
    Tiny,
    Base,
    Small,
    Medium,
    LargeV3,
}

/// File name a model identity is stored and downloaded under.
pub open spec fn filename_spec(m: WhisperModel) -> Seq<char> {
    match m {
        WhisperModel::Tiny => "ggml-tiny.bin"@,
        WhisperModel::Base => "ggml-base.bin"@,
        WhisperModel::Small => "ggml-small.bin"@,
        WhisperModel::Medium => "ggml-medium.bin"@,
        WhisperModel::LargeV3 => "ggml-large-v3.bin"@,
    }
}

/// Human-readable name of a model identity.
pub open spec fn display_name_spec(m: WhisperModel) -> Seq<char> {
    match m {
        WhisperModel::Tiny => "Tiny (~39MB)"@,
        WhisperModel::Base => "Base (~74MB)"@,
        WhisperModel::Small => "Small (~244MB)"@,
        WhisperModel::Medium => "Medium (~769MB)"@,
        WhisperModel::LargeV3 => "Large-v3 (~1.5GB)"@,
    }
}

/// Short name a model identity is selected by in the settings.
pub open spec fn short_name_spec(m: WhisperModel) -> Seq<char> {
    match m {
        WhisperModel::Tiny => "tiny"@,
        WhisperModel::Base => "base"@,
        WhisperModel::Small => "small"@,
        WhisperModel::Medium => "medium"@,
        WhisperModel::LargeV3 => "large-v3"@,
    }
}

/// The model identity a configuration string selects, if any: the match
/// ignores ASCII letter case, and the largest size answers to three
/// spellings.
pub open spec fn from_str_spec(s: Seq<char>) -> Option<WhisperModel> {
    if ci_eq_spec(s, "tiny"@) {
        Some(WhisperModel::Tiny)
    } else if ci_eq_spec(s, "base"@) {
        Some(WhisperModel::Base)
    } else if ci_eq_spec(s, "small"@) {
        Some(WhisperModel::Small)
    } else if ci_eq_spec(s, "medium"@) {
        Some(WhisperModel::Medium)
    } else if ci_eq_spec(s, "large-v3"@) || ci_eq_spec(s, "large_v3"@) || ci_eq_spec(
        s,
        "largev3"@,
    ) {
        Some(WhisperModel::LargeV3)
    } else {
        None
    }
}

impl WhisperModel {
    /// File name the model is stored and downloaded under.
    pub fn filename(&self) -> (r: &'static str)
        ensures
            r@ == filename_spec(*self),
    {
        match self {
            WhisperModel::Tiny => "ggml-tiny.bin",
            WhisperModel::Base => "ggml-base.bin",
            WhisperModel::Small => "ggml-small.bin",
            WhisperModel::Medium => "ggml-medium.bin",
            WhisperModel::LargeV3 => "ggml-large-v3.bin",
        }
    }

    /// Address the model file is downloaded from.
    pub fn download_url(&self) -> (r: String)
        ensures
            r@ == "https://huggingface.co/ggerganov/whisper.cpp/resolve/main/"@
                + filename_spec(*self),
    {
        let base = String::from_str(
            "https://huggingface.co/ggerganov/whisper.cpp/resolve/main/",
        );
        base.concat(self.filename())
    }

    /// Human-readable name with an approximate size.
    pub fn display_name(&self) -> (r: &'static str)
        ensures
            r@ == display_name_spec(*self),
    {
        match self {
            WhisperModel::Tiny => "Tiny (~39MB)",
            WhisperModel::Base => "Base (~74MB)",
            WhisperModel::Small => "Small (~244MB)",
            WhisperModel::Medium => "Medium (~769MB)",
            WhisperModel::LargeV3 => "Large-v3 (~1.5GB)",
        }
    }

    /// Short name the model is selected by in the settings.
    pub fn short_name(&self) -> (r: &'static str)
        ensures
            r@ == short_name_spec(*self),
    {
        match self {
            WhisperModel::Tiny => "tiny",
            WhisperModel::Base => "base",
            WhisperModel::Small => "small",
            WhisperModel::Medium => "medium",
            WhisperModel::LargeV3 => "large-v3",
        }
    }

    /// Parse a configuration string into a model identity.
    pub fn from_str(s: &str) -> (r: Option<WhisperModel>)
        ensures
            r == from_str_spec(s@),
    {
        if str_eq_ignore_ascii_case(s, "tiny") {
            Some(WhisperModel::Tiny)
        } else if str_eq_ignore_ascii_case(s, "base") {
            Some(WhisperModel::Base)
        } else if str_eq_ignore_ascii_case(s, "small") {
            Some(WhisperModel::Small)
        } else if str_eq_ignore_ascii_case(s, "medium") {
            Some(WhisperModel::Medium)
        } else if str_eq_ignore_ascii_case(s, "large-v3") || str_eq_ignore_ascii_case(
            s,
            "large_v3",
        ) || str_eq_ignore_ascii_case(s, "largev3") {
            Some(WhisperModel::LargeV3)
        } else {
            None
        }
    }
}

/// Path of a model's file under the given models directory.
pub fn get_model_path(models_dir: &str, model: &WhisperModel) -> (r: String)
    ensures
        r@ == models_dir@ + "/"@ + filename_spec(*model),
{
    let base = String::from_str(models_dir);
    base.concat("/").concat(model.filename())
}

/// The model identity a configuration string selects, or the typed
/// refusal.
pub fn resolve_local_model(name: &str) -> (r: Result<WhisperModel, AppError>)
    ensures
        r == match from_str_spec(name@) {
            Some(m) => Ok::<WhisperModel, AppError>(m),
            None => Err::<WhisperModel, AppError>(AppError::UnknownModel),
        },
{
    match WhisperModel::from_str(name) {
        Some(m) => Ok(m),
        None => Err(AppError::UnknownModel),
    }
}

/// Refuse a model that is not on disk yet.
pub fn require_downloaded(is_downloaded: bool) -> (r: Result<(), AppError>)
    ensures
        is_downloaded ==> r == Ok::<(), AppError>(()),
        !is_downloaded ==> r == Err::<(), AppError>(AppError::ModelNotDownloaded),
{
    if is_downloaded {
        Ok(())
    } else {
        Err(AppError::ModelNotDownloaded)
    }
}

/// Download progress in thousandths, capped at complete; an unknown
/// total reads as no progress.
pub fn progress_permille(downloaded: u64, total: u64) -> (r: u32)
    ensures
        total == 0 ==> r == 0,
        total > 0 && 1000 * (downloaded as int) / (total as int) <= 1000 ==> r == 1000 * (
        downloaded as int) / (total as int),
        total > 0 && 1000 * (downloaded as int) / (total as int) > 1000 ==> r == 1000,
{
    if total == 0 {
        return 0;
    }
    let q: u128 = 1000u128 * (downloaded as u128) / (total as u128);
    if q > 1000 {
        1000
    } else {
        q as u32
    }
}

/// Whether a progress update is worth surfacing: a jump of more than
/// five percent, or completion.
pub fn progress_report_due(old_permille: u32, new_permille: u32) -> (r: bool)
    ensures
        r == (new_permille > old_permille + 50 || new_permille >= 1000),
{
    new_permille > old_permille && new_permille - old_permille > 50 || new_permille >= 1000
}

/// Whether a model file's reported size clears the plausibility bound;
/// `None` stands for a file that is not present at all.
pub fn model_file_plausible(file_size: Option<u64>) -> (r: bool)
    ensures
        r == match file_size {
            Some(n) => n >= MIN_MODEL_FILE_BYTES,
            None => false,
        },
{
    match file_size {
        Some(n) => n >= MIN_MODEL_FILE_BYTES,
        None => false,
    }
}

} // verus!
