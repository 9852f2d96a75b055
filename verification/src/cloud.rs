//! The compute side of cloud transcription: request construction and
//! response interpretation.  The HTTP traffic itself happens outside the
//! core; everything decided here — addresses, payloads, status-code
//! meanings — is exact.

use vstd::prelude::*;
use crate::errors::AppError;
use crate::inference::auto_language_spec;
use crate::settings::CloudProvider;
use crate::text::str_eq_ignore_ascii_case;
use crate::text::trim_end_char_spec;
use crate::text::trim_end_char;
use crate::text::trim_spec;
use crate::text::trim_str;
use crate::wav::encode_wav;
use crate::wav::encode_wav_spec;

verus! {

/// How long a cloud transcription request may run.
pub const CLOUD_TIMEOUT_SECS: u64 = 120;

/// How long a connectivity probe may run.
pub const PROBE_TIMEOUT_SECS: u64 = 10;

/// What a cloud transcription needs: normalized audio and the
/// configured provider coordinates.
pub struct CloudTranscribeParams {
    /// One-channel fixed-point PCM at the target rate.
    pub audio_samples: Vec<i16>,
    /// Language hint; `auto` or empty asks the provider to detect.
    pub language: String,
    pub provider: CloudProvider,
    /// Base address of an OpenAI-compatible service; for the NLS
    /// provider this field carries the AppKey instead.
    pub base_url: String,
    /// Bearer token; for the NLS provider, the NLS token.
    pub api_key: String,
}

/// The `model` form field each OpenAI-compatible provider expects.
pub open spec fn model_name_for_provider_spec(p: CloudProvider) -> Seq<char> {
    match p {
        CloudProvider::OpenAI => "whisper-1"@,
        CloudProvider::VolcEngine => "Doubao-asr"@,
        CloudProvider::Aliyun => "paraformer-realtime-v2"@,
        CloudProvider::Xunfei => "iflytekws"@,
        CloudProvider::Custom => "whisper-1"@,
    }
}

/// The `model` form field the provider expects.
pub fn model_name_for_provider(provider: &CloudProvider) -> (r: String)
    ensures
        r@ == model_name_for_provider_spec(*provider),
{
    match provider {
        CloudProvider::OpenAI => String::from_str("whisper-1"),
        CloudProvider::VolcEngine => String::from_str("Doubao-asr"),
        CloudProvider::Aliyun => String::from_str("paraformer-realtime-v2"),
        CloudProvider::Xunfei => String::from_str("iflytekws"),
        CloudProvider::Custom => String::from_str("whisper-1"),
    }
}

/// The transcription endpoint under a base address, tolerant of
/// trailing slashes.
pub fn transcription_url(base_url: &str) -> (r: String)
    ensures
        r@ == trim_end_char_spec(base_url@, '/') + "/audio/transcriptions"@,
{
    let base = trim_end_char(base_url, '/');
    base.concat("/audio/transcriptions")
}

/// The NLS gateway address for an application key.
pub fn nls_url(appkey: &str) -> (r: String)
    ensures
        r@ == "https://nls-gateway-cn-shanghai.aliyuncs.com/stream/v1/asr?appkey="@ + appkey@,
{
    let base = String::from_str(
        "https://nls-gateway-cn-shanghai.aliyuncs.com/stream/v1/asr?appkey=",
    );
    base.concat(appkey)
}

/// One fully decided cloud request, ready to be sent.
#[derive(Debug)]
pub enum CloudRequest {
    /// POST multipart/form-data to an OpenAI-compatible service, with a
    /// bearer token.
    OpenAiCompatible {
        url: String,
        api_key: String,
        model: String,
        /// Included only when a concrete language is configured.
        language: Option<String>,
        wav: Vec<u8>,
    },
    /// POST raw WAV bytes to the NLS gateway, with a token header.
    AliyunNls { url: String, token: String, wav: Vec<u8> },
}

/// Build the cloud request the configuration asks for: the NLS provider
/// takes raw WAV under its gateway address (refused without an AppKey
/// and token); every other provider takes the OpenAI-compatible form.
pub fn build_cloud_request(params: &CloudTranscribeParams) -> (r: Result<CloudRequest, AppError>)
    requires
        2 * params.audio_samples@.len() + 44 <= u32::MAX,
    ensures
        params.provider is Aliyun ==> match r {
            Ok(req) => match req {
                CloudRequest::AliyunNls { url, token, wav } => {
                    &&& trim_spec(params.base_url@).len() > 0
                    &&& trim_spec(params.api_key@).len() > 0
                    &&& url@
                        == "https://nls-gateway-cn-shanghai.aliyuncs.com/stream/v1/asr?appkey="@
                        + trim_spec(params.base_url@)
                    &&& token@ == trim_spec(params.api_key@)
                    &&& wav@ == encode_wav_spec(params.audio_samples@, 16000, 1)
                },
                _ => false,
            },
            Err(e) => {
                &&& (e == AppError::MissingBaseUrl || e == AppError::MissingApiKey)
                &&& (trim_spec(params.base_url@).len() == 0 || trim_spec(
                    params.api_key@,
                ).len() == 0)
            },
        },
        !(params.provider is Aliyun) ==> match r {
            Ok(req) => match req {
                CloudRequest::OpenAiCompatible { url, api_key, model, language, wav } => {
                    &&& url@ == trim_end_char_spec(params.base_url@, '/')
                        + "/audio/transcriptions"@
                    &&& api_key@ == params.api_key@
                    &&& model@ == model_name_for_provider_spec(params.provider)
                    &&& match language {
                        Some(l) => !auto_language_spec(params.language@) && l@
                            == params.language@,
                        None => auto_language_spec(params.language@),
                    }
                    &&& wav@ == encode_wav_spec(params.audio_samples@, 16000, 1)
                },
                _ => false,
            },
            Err(_) => false,
        },
{
    let wav = encode_wav(&params.audio_samples, 16000, 1);
    match params.provider {
        CloudProvider::Aliyun => {
            let appkey = trim_str(params.base_url.as_str());
            let token = trim_str(params.api_key.as_str());
            if appkey.as_str().is_empty() {
                return Err(AppError::MissingBaseUrl);
            }
            if token.as_str().is_empty() {
                return Err(AppError::MissingApiKey);
            }
            let url = nls_url(appkey.as_str());
            Ok(CloudRequest::AliyunNls { url, token, wav })
        },
        _ => {
            let url = transcription_url(params.base_url.as_str());
            let auto = params.language.as_str().is_empty() || str_eq_ignore_ascii_case(
                params.language.as_str(),
                "auto",
            );
            let language = if auto {
                None
            } else {
                Some(params.language.clone())
            };
            Ok(
                CloudRequest::OpenAiCompatible {
                    url,
                    api_key: params.api_key.clone(),
                    model: model_name_for_provider(&params.provider),
                    language,
                    wav,
                },
            )
        },
    }
}

/// The NLS status code that means success.
pub const NLS_STATUS_SUCCESS: u64 = 20000000;

/// Read an NLS transcription response: the success status yields the
/// recognized text (empty when the service sent none), anything else is
/// a cloud failure.
pub fn interpret_nls_response(status: u64, result: Option<String>) -> (r: Result<
    String,
    AppError,
>)
    ensures
        status == NLS_STATUS_SUCCESS ==> match r {
            Ok(text) => match result {
                Some(t) => text@ == t@,
                None => text@ == Seq::<char>::empty(),
            },
            Err(_) => false,
        },
        status != NLS_STATUS_SUCCESS ==> r == Err::<String, AppError>(AppError::CloudFailure),
{
    if status == NLS_STATUS_SUCCESS {
        match result {
            Some(t) => Ok(t),
            None => Ok(String::new()),
        }
    } else {
        Err(AppError::CloudFailure)
    }
}

/// What a probe of an OpenAI-compatible `models` endpoint learned.
#[derive(Debug, Clone, Copy, PartialEq, Eq, Structural)]
pub enum CloudProbeOutcome {
    /// The service answered normally.
    Connected,
    /// The endpoint is absent but the service is reachable; the
    /// transcription endpoint usually still works.
    ReachableNoModels,
    /// The key was rejected.
    InvalidKey,
    /// The service is throttling.
    RateLimited,
    /// Some other status came back.
    UnexpectedStatus,
}

/// Classify the status code of a `models` probe.
pub fn interpret_models_probe(status_code: u16) -> (r: CloudProbeOutcome)
    ensures
        200 <= status_code < 300 ==> r == CloudProbeOutcome::Connected,
        status_code == 401 || status_code == 403 ==> r == CloudProbeOutcome::InvalidKey,
        status_code == 404 ==> r == CloudProbeOutcome::ReachableNoModels,
        status_code == 429 ==> r == CloudProbeOutcome::RateLimited,
        !(200 <= status_code < 300) && status_code != 401 && status_code != 403 && status_code
            != 404 && status_code != 429 ==> r == CloudProbeOutcome::UnexpectedStatus,
{
    if 200 <= status_code && status_code < 300 {
        CloudProbeOutcome::Connected
    } else if status_code == 401 || status_code == 403 {
        CloudProbeOutcome::InvalidKey
    } else if status_code == 404 {
        CloudProbeOutcome::ReachableNoModels
    } else if status_code == 429 {
        CloudProbeOutcome::RateLimited
    } else {
        CloudProbeOutcome::UnexpectedStatus
    }
}

/// What a probe of the NLS gateway learned: an empty-body post that
/// fails with the empty-audio codes proves the credentials work.
#[derive(Debug, Clone, Copy, PartialEq, Eq, Structural)]
pub enum NlsProbeOutcome {
    /// The AppKey and token are valid (the gateway refused only the
    /// empty audio).
    CredentialsValid,
    /// The token is invalid or expired.
    TokenInvalid,
    /// The AppKey is unknown.
    AppKeyUnknown,
    /// The AppKey belongs to another account than the token.
    AppKeyTokenMismatch,
    /// The trial period is over.
    TrialExpired,
    /// The gateway answered with some other status.
    Reachable,
}

/// Classify the NLS status code of an empty-body probe.
pub fn interpret_nls_probe(status: u64) -> (r: NlsProbeOutcome)
    ensures
        status == 40000000 || status == 40270002 ==> r == NlsProbeOutcome::CredentialsValid,
        status == 40000001 ==> r == NlsProbeOutcome::TokenInvalid,
        status == 40020105 ==> r == NlsProbeOutcome::AppKeyUnknown,
        status == 40020106 ==> r == NlsProbeOutcome::AppKeyTokenMismatch,
        status == 40000010 ==> r == NlsProbeOutcome::TrialExpired,
        status != 40000000 && status != 40270002 && status != 40000001 && status != 40020105
            && status != 40020106 && status != 40000010 ==> r == NlsProbeOutcome::Reachable,
{
    if status == 40000000 || status == 40270002 {
        NlsProbeOutcome::CredentialsValid
    } else if status == 40000001 {
        NlsProbeOutcome::TokenInvalid
    } else if status == 40020105 {
        NlsProbeOutcome::AppKeyUnknown
    } else if status == 40020106 {
        NlsProbeOutcome::AppKeyTokenMismatch
    } else if status == 40000010 {
        NlsProbeOutcome::TrialExpired
    } else {
        NlsProbeOutcome::Reachable
    }
}

} // verus!
