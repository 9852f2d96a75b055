use voxie::engine::WhisperEngine;
use voxie::errors::AppError;
use voxie::inference::{
    assemble_transcript, recommended_threads, thread_budget, INFERENCE_TIMEOUT_SECS,
    SHORT_AUDIO_SAMPLES,
};
use voxie::model::WhisperModel;

#[test]
fn unloaded_engine_is_refused_first() {
    let e = WhisperEngine::new();
    let audio: Vec<i16> = vec![1000; 16000];
    let r = e.prepare_transcribe(&audio, "en", false);
    assert_eq!(r.unwrap_err(), AppError::EngineNotLoaded);
}

#[test]
fn empty_audio_is_refused_before_engine_work() {
    let mut e = WhisperEngine::new();
    e.note_load_success(&WhisperModel::Tiny);
    let audio: Vec<i16> = Vec::new();
    assert_eq!(
        e.prepare_transcribe(&audio, "en", false).unwrap_err(),
        AppError::EmptyAudio
    );
}

#[test]
fn all_zero_audio_is_refused_as_silent() {
    let mut e = WhisperEngine::new();
    e.note_load_success(&WhisperModel::Tiny);
    let audio: Vec<i16> = vec![0; 32000];
    assert_eq!(
        e.prepare_transcribe(&audio, "en", false).unwrap_err(),
        AppError::SilentAudio
    );
}

#[test]
fn accepted_audio_yields_a_plan() {
    let mut e = WhisperEngine::new();
    e.note_load_success(&WhisperModel::Tiny);
    let audio: Vec<i16> = vec![2000; 32000];
    let plan = e.prepare_transcribe(&audio, "en", false).unwrap();
    assert_eq!(plan.language.as_deref(), Some("en"));
    assert!(plan.n_threads >= 1 && plan.n_threads <= 8);
    assert!(plan.single_segment); // two seconds is short audio
    assert!(!plan.translate);

    let long: Vec<i16> = vec![2000; SHORT_AUDIO_SAMPLES];
    let plan = e.prepare_transcribe(&long, "zh", false).unwrap();
    assert!(!plan.single_segment);
}

#[test]
fn auto_and_empty_language_ask_for_detection() {
    let mut e = WhisperEngine::new();
    e.note_load_success(&WhisperModel::Tiny);
    let audio: Vec<i16> = vec![2000; 16000];
    assert!(e.prepare_transcribe(&audio, "auto", false).unwrap().language.is_none());
    assert!(e.prepare_transcribe(&audio, "AUTO", false).unwrap().language.is_none());
    assert!(e.prepare_transcribe(&audio, "", false).unwrap().language.is_none());
    assert_eq!(
        e.prepare_transcribe(&audio, "zh", false).unwrap().language.as_deref(),
        Some("zh")
    );
}

#[test]
fn thread_budget_caps() {
    assert_eq!(thread_budget(16, 32, false), 8);
    assert_eq!(thread_budget(16, 32, true), 4);
    assert_eq!(thread_budget(2, 4, true), 2);
    assert_eq!(thread_budget(2, 4, false), 4);
    assert_eq!(thread_budget(0, 0, false), 1);
    assert_eq!(thread_budget(0, 0, true), 1);

    let t = recommended_threads(false);
    assert!(t >= 1 && t <= 8);
    let t = recommended_threads(true);
    assert!(t >= 1 && t <= 4);
}

#[test]
fn transcript_assembly_joins_and_trims() {
    let segs = vec![" Hello".to_string(), ", ".to_string(), "world ".to_string()];
    assert_eq!(assemble_transcript(&segs), "Hello, world");
    let empty: Vec<String> = Vec::new();
    assert_eq!(assemble_transcript(&empty), "");
    let blank = vec!["   ".to_string(), "\t\n".to_string()];
    assert_eq!(assemble_transcript(&blank), "");
}

#[test]
fn timeout_bound_is_two_minutes() {
    assert_eq!(INFERENCE_TIMEOUT_SECS, 120);
}
