use voxie::cloud::{
    build_cloud_request, interpret_models_probe, interpret_nls_probe, interpret_nls_response,
    model_name_for_provider, nls_url, transcription_url, CloudProbeOutcome, CloudRequest,
    CloudTranscribeParams, NlsProbeOutcome, NLS_STATUS_SUCCESS,
};
use voxie::errors::AppError;
use voxie::settings::CloudProvider;
use voxie::wav::encode_wav;

#[test]
fn wav_bytes_are_exact() {
    let samples: Vec<i16> = vec![0, 1, -1];
    let wav = encode_wav(&samples, 16000, 1);
    let expected: Vec<u8> = vec![
        0x52, 0x49, 0x46, 0x46, // RIFF
        42, 0, 0, 0, // 36 + 6 data bytes
        0x57, 0x41, 0x56, 0x45, // WAVE
        0x66, 0x6d, 0x74, 0x20, // fmt_
        16, 0, 0, 0, // fmt chunk size
        1, 0, // PCM
        1, 0, // one channel
        0x80, 0x3e, 0, 0, // 16000 Hz
        0x00, 0x7d, 0, 0, // 32000 bytes per second
        2, 0, // block align
        16, 0, // bits per sample
        0x64, 0x61, 0x74, 0x61, // data
        6, 0, 0, 0, // data size
        0, 0, // sample 0
        1, 0, // sample 1
        0xff, 0xff, // sample -1
    ];
    assert_eq!(wav, expected);
}

#[test]
fn wav_empty_input_is_header_only() {
    let samples: Vec<i16> = Vec::new();
    let wav = encode_wav(&samples, 16000, 1);
    assert_eq!(wav.len(), 44);
    assert_eq!(&wav[0..4], b"RIFF");
    assert_eq!(&wav[8..12], b"WAVE");
    assert_eq!(&wav[36..40], b"data");
    assert_eq!(&wav[40..44], [0, 0, 0, 0]);
}

#[test]
fn transcription_url_tolerates_trailing_slash() {
    assert_eq!(
        transcription_url("https://api.openai.com/v1"),
        "https://api.openai.com/v1/audio/transcriptions"
    );
    assert_eq!(
        transcription_url("https://api.openai.com/v1///"),
        "https://api.openai.com/v1/audio/transcriptions"
    );
}

#[test]
fn nls_url_carries_appkey() {
    assert_eq!(
        nls_url("myKey"),
        "https://nls-gateway-cn-shanghai.aliyuncs.com/stream/v1/asr?appkey=myKey"
    );
}

#[test]
fn provider_model_names() {
    assert_eq!(model_name_for_provider(&CloudProvider::OpenAI), "whisper-1");
    assert_eq!(model_name_for_provider(&CloudProvider::VolcEngine), "Doubao-asr");
    assert_eq!(model_name_for_provider(&CloudProvider::Aliyun), "paraformer-realtime-v2");
    assert_eq!(model_name_for_provider(&CloudProvider::Xunfei), "iflytekws");
    assert_eq!(model_name_for_provider(&CloudProvider::Custom), "whisper-1");
}

fn params(provider: CloudProvider) -> CloudTranscribeParams {
    CloudTranscribeParams {
        audio_samples: vec![1000; 160],
        language: "zh".to_string(),
        provider,
        base_url: "https://api.openai.com/v1/".to_string(),
        api_key: "key-for-tests".to_string(),
    }
}

#[test]
fn openai_request_is_built_whole() {
    let p = params(CloudProvider::OpenAI);
    match build_cloud_request(&p).unwrap() {
        CloudRequest::OpenAiCompatible { url, api_key, model, language, wav } => {
            assert_eq!(url, "https://api.openai.com/v1/audio/transcriptions");
            assert_eq!(api_key, "key-for-tests");
            assert_eq!(model, "whisper-1");
            assert_eq!(language.as_deref(), Some("zh"));
            assert_eq!(wav, encode_wav(&p.audio_samples, 16000, 1));
        }
        _ => panic!("expected the OpenAI-compatible form"),
    }
}

#[test]
fn auto_language_is_omitted_from_the_form() {
    let mut p = params(CloudProvider::Custom);
    p.language = "auto".to_string();
    match build_cloud_request(&p).unwrap() {
        CloudRequest::OpenAiCompatible { language, .. } => assert!(language.is_none()),
        _ => panic!("expected the OpenAI-compatible form"),
    }
}

#[test]
fn aliyun_request_trims_and_requires_credentials() {
    let mut p = params(CloudProvider::Aliyun);
    p.base_url = "  appkey1  ".to_string();
    p.api_key = " token1 ".to_string();
    match build_cloud_request(&p).unwrap() {
        CloudRequest::AliyunNls { url, token, wav } => {
            assert_eq!(
                url,
                "https://nls-gateway-cn-shanghai.aliyuncs.com/stream/v1/asr?appkey=appkey1"
            );
            assert_eq!(token, "token1");
            assert_eq!(wav, encode_wav(&p.audio_samples, 16000, 1));
        }
        _ => panic!("expected the NLS form"),
    }

    p.base_url = "   ".to_string();
    assert_eq!(build_cloud_request(&p).unwrap_err(), AppError::MissingBaseUrl);
    p.base_url = "appkey1".to_string();
    p.api_key = "".to_string();
    assert_eq!(build_cloud_request(&p).unwrap_err(), AppError::MissingApiKey);
}

#[test]
fn nls_response_interpretation() {
    assert_eq!(
        interpret_nls_response(NLS_STATUS_SUCCESS, Some("北京的天气".to_string())),
        Ok("北京的天气".to_string())
    );
    assert_eq!(interpret_nls_response(NLS_STATUS_SUCCESS, None), Ok(String::new()));
    assert_eq!(
        interpret_nls_response(40000001, Some("ignored".to_string())),
        Err(AppError::CloudFailure)
    );
}

#[test]
fn models_probe_classification() {
    assert_eq!(interpret_models_probe(200), CloudProbeOutcome::Connected);
    assert_eq!(interpret_models_probe(299), CloudProbeOutcome::Connected);
    assert_eq!(interpret_models_probe(401), CloudProbeOutcome::InvalidKey);
    assert_eq!(interpret_models_probe(403), CloudProbeOutcome::InvalidKey);
    assert_eq!(interpret_models_probe(404), CloudProbeOutcome::ReachableNoModels);
    assert_eq!(interpret_models_probe(429), CloudProbeOutcome::RateLimited);
    assert_eq!(interpret_models_probe(500), CloudProbeOutcome::UnexpectedStatus);
}

#[test]
fn nls_probe_classification() {
    assert_eq!(interpret_nls_probe(40000000), NlsProbeOutcome::CredentialsValid);
    assert_eq!(interpret_nls_probe(40270002), NlsProbeOutcome::CredentialsValid);
    assert_eq!(interpret_nls_probe(40000001), NlsProbeOutcome::TokenInvalid);
    assert_eq!(interpret_nls_probe(40020105), NlsProbeOutcome::AppKeyUnknown);
    assert_eq!(interpret_nls_probe(40020106), NlsProbeOutcome::AppKeyTokenMismatch);
    assert_eq!(interpret_nls_probe(40000010), NlsProbeOutcome::TrialExpired);
    assert_eq!(interpret_nls_probe(12345), NlsProbeOutcome::Reachable);
}
