//! Application settings: transcription mode, model and language
//! selection, cloud configuration, and bounds such as the history cap.

use vstd::prelude::*;
use crate::errors::AppError;

verus! {

/// Which path a transcription request takes.
#[derive(Debug, Clone, Copy, PartialEq, Eq, Structural)]
pub enum TranscriptionMode {
    Local,
    Cloud,
}

impl Default for TranscriptionMode {
    /// Transcription runs locally until configured otherwise.
    fn default() -> (r: Self)
        ensures
            r == TranscriptionMode::Local,
    {
        TranscriptionMode::Local
    }
}

/// The cloud collaborators a request can be dispatched to.
#[derive(Debug, Clone, Copy, PartialEq, Eq, Structural)]
pub enum CloudProvider {
    OpenAI,
    VolcEngine,
    Aliyun,
    Xunfei,
    Custom,
}

impl Default for CloudProvider {
    fn default() -> (r: Self)
        ensures
            r == CloudProvider::OpenAI,
    {
        CloudProvider::OpenAI
    }
}

/// The default theme colour.
pub fn default_theme() -> (r: String)
    ensures
        r@ == "green"@,
{
    String::from_str("green")
}

/// Everything the user can configure.
#[derive(Debug)]
pub struct AppSettings {
    pub mode: TranscriptionMode,
    /// Short name of the local model (`tiny` … `large-v3`).
    pub local_model: String,
    pub cloud_provider: CloudProvider,
    pub cloud_base_url: String,
    pub cloud_api_key: String,
    pub shortcut_key: String,
    /// Language to recognize; `auto` or empty asks for detection.
    pub language: String,
    /// Window opacity in thousandths (850 stands for 0.85).
    pub window_opacity_permille: u16,
    pub auto_copy: bool,
    /// How many history items are retained; older ones are evicted.
    pub max_history: usize,
    pub theme: String,
    /// Optional translation API key; empty means the free allowance.
    pub my_memory_key: String,
}

impl AppSettings {
    /// An exact copy of the settings.
    pub fn duplicate(&self) -> (r: AppSettings)
        ensures
            r == *self,
    {
        AppSettings {
            mode: self.mode,
            local_model: self.local_model.clone(),
            cloud_provider: self.cloud_provider,
            cloud_base_url: self.cloud_base_url.clone(),
            cloud_api_key: self.cloud_api_key.clone(),
            shortcut_key: self.shortcut_key.clone(),
            language: self.language.clone(),
            window_opacity_permille: self.window_opacity_permille,
            auto_copy: self.auto_copy,
            max_history: self.max_history,
            theme: self.theme.clone(),
            my_memory_key: self.my_memory_key.clone(),
        }
    }
}

impl Default for AppSettings {
    /// The out-of-the-box configuration.
    fn default() -> (r: Self)
        ensures
            r.mode == TranscriptionMode::Local,
            r.local_model@ == "small"@,
            r.cloud_provider == CloudProvider::OpenAI,
            r.cloud_base_url@ == "https://api.openai.com/v1"@,
            r.cloud_api_key@ == Seq::<char>::empty(),
            r.shortcut_key@ == "Alt"@,
            r.language@ == "auto"@,
            r.window_opacity_permille == 850,
            r.auto_copy == true,
            r.max_history == 100,
            r.theme@ == "green"@,
            r.my_memory_key@ == Seq::<char>::empty(),
    {
        AppSettings {
            mode: TranscriptionMode::Local,
            local_model: String::from_str("small"),
            cloud_provider: CloudProvider::OpenAI,
            cloud_base_url: String::from_str("https://api.openai.com/v1"),
            cloud_api_key: String::new(),
            shortcut_key: String::from_str("Alt"),
            language: String::from_str("auto"),
            window_opacity_permille: 850,
            auto_copy: true,
            max_history: 100,
            theme: default_theme(),
            my_memory_key: String::new(),
        }
    }
}

/// Check that the cloud configuration is complete enough to dispatch: a
/// key first, then a base address.
pub fn validate_cloud_settings(settings: &AppSettings) -> (r: Result<(), AppError>)
    ensures
        settings.cloud_api_key@.len() == 0 ==> r == Err::<(), AppError>(AppError::MissingApiKey),
        settings.cloud_api_key@.len() > 0 && settings.cloud_base_url@.len() == 0 ==> r == Err::<
            (),
            AppError,
        >(AppError::MissingBaseUrl),
        settings.cloud_api_key@.len() > 0 && settings.cloud_base_url@.len() > 0 ==> r == Ok::<
            (),
            AppError,
        >(()),
{
    if settings.cloud_api_key.as_str().is_empty() {
        Err(AppError::MissingApiKey)
    } else if settings.cloud_base_url.as_str().is_empty() {
        Err(AppError::MissingBaseUrl)
    } else {
        Ok(())
    }
}

} // verus!
