use voxie::errors::AppError;
use voxie::session::{InferenceOutcome, InnerState, ModelStatus, RecordingStatus};
use voxie::settings::TranscriptionMode;

#[test]
fn idle_rejects_stop_and_transcribe() {
    let mut s = InnerState::new();
    assert_eq!(s.request_stop(), Err(AppError::NotRecording));
    assert!(matches!(s.begin_transcribe(), Err(AppError::InvalidState)));
    assert_eq!(s.get_recording_status().status, RecordingStatus::Idle);
}

#[test]
fn recording_rejects_start() {
    let mut s = InnerState::new();
    assert_eq!(s.request_start(), Ok(()));
    assert_eq!(s.get_recording_status().status, RecordingStatus::Recording);
    assert_eq!(s.request_start(), Err(AppError::AlreadyRecording));
}

#[test]
fn processing_rejects_start_and_stop() {
    let mut s = InnerState::new();
    assert_eq!(s.request_start(), Ok(()));
    assert_eq!(s.request_stop(), Ok(()));
    s.store_stopped_audio(vec![100; 16000]);
    assert_eq!(s.get_recording_status().status, RecordingStatus::Processing);
    assert_eq!(s.request_start(), Err(AppError::InvalidState));
    assert_eq!(s.request_stop(), Err(AppError::NotRecording));
}

#[test]
fn start_failure_rolls_back_to_idle() {
    let mut s = InnerState::new();
    assert_eq!(s.request_start(), Ok(()));
    s.start_failed();
    assert_eq!(s.get_recording_status().status, RecordingStatus::Idle);
    // and the session accepts a new start afterwards
    assert_eq!(s.request_start(), Ok(()));
}

#[test]
fn stop_reports_sample_count_and_duration() {
    let mut s = InnerState::new();
    s.request_start().unwrap();
    let resp = s.store_stopped_audio(vec![7; 32000]);
    assert_eq!(resp.sample_count, 32000);
    assert_eq!(resp.duration_ms, 2000);
    assert_eq!(s.get_recording_status().sample_count, 32000);
    assert_eq!(s.get_recording_status().duration_ms, 2000);
}

#[test]
fn transcribe_without_audio_ends_idle() {
    let mut s = InnerState::new();
    s.request_start().unwrap();
    s.store_stopped_audio(Vec::new());
    let r = s.begin_transcribe();
    assert!(matches!(r, Err(AppError::NoAudioData)));
    let st = s.get_recording_status();
    assert_eq!(st.status, RecordingStatus::Idle);
    assert_eq!(st.sample_count, 0);
}

#[test]
fn successful_cycle_ends_idle_with_history() {
    let mut s = InnerState::new();
    s.request_start().unwrap();
    s.store_stopped_audio(vec![1000; 32000]);
    let job = s.begin_transcribe().unwrap();
    assert_eq!(job.audio.len(), 32000);
    assert_eq!(job.duration_ms, 2000);
    let r = s.record_transcription(
        "hello".to_string(),
        job.duration_ms,
        TranscriptionMode::Local,
    );
    assert_eq!(r.text, "hello");
    assert_eq!(r.duration_ms, 2000);
    let st = s.get_recording_status();
    assert_eq!(st.status, RecordingStatus::Idle);
    assert_eq!(st.sample_count, 0);
    let ts = s.get_transcription_status();
    assert!(!ts.is_processing);
    assert_eq!(ts.last_result.as_deref(), Some("hello"));
}

#[test]
fn failed_cycle_ends_idle_without_history() {
    let mut s = InnerState::new();
    s.request_start().unwrap();
    s.store_stopped_audio(vec![1000; 16000]);
    let _job = s.begin_transcribe().unwrap();
    s.finish_transcribe_failure();
    let st = s.get_recording_status();
    assert_eq!(st.status, RecordingStatus::Idle);
    assert_eq!(st.sample_count, 0);
    assert!(s.get_transcription_status().last_result.is_none());
}

#[test]
fn timed_out_cycle_ends_idle_with_buffer_cleared() {
    let mut s = InnerState::new();
    s.request_start().unwrap();
    s.store_stopped_audio(vec![1000; 16000]);
    let _job = s.begin_transcribe().unwrap();
    // the caller abandoned the worker after the timeout elapsed
    s.finish_transcribe_failure();
    assert_eq!(s.get_recording_status().status, RecordingStatus::Idle);
    assert_eq!(s.get_recording_status().sample_count, 0);
}

#[test]
fn inference_failure_outcome_surfaces_typed_error() {
    let mut s = InnerState::new();
    s.request_start().unwrap();
    s.store_stopped_audio(vec![1000; 16000]);
    let job = s.begin_transcribe().unwrap();
    let r = s.apply_inference_outcome(
        InferenceOutcome::Failed,
        job.duration_ms,
        TranscriptionMode::Local,
    );
    assert_eq!(r.unwrap_err(), AppError::InferenceFailure);
    assert_eq!(s.get_recording_status().status, RecordingStatus::Idle);
    assert!(s.get_transcription_status().last_result.is_none());
}

#[test]
fn inference_timeout_outcome_resets_the_session() {
    let mut s = InnerState::new();
    s.request_start().unwrap();
    s.store_stopped_audio(vec![1000; 16000]);
    let job = s.begin_transcribe().unwrap();
    let r = s.apply_inference_outcome(
        InferenceOutcome::TimedOut,
        job.duration_ms,
        TranscriptionMode::Local,
    );
    assert_eq!(r.unwrap_err(), AppError::InferenceTimeout);
    let st = s.get_recording_status();
    assert_eq!(st.status, RecordingStatus::Idle);
    assert_eq!(st.sample_count, 0);
}

#[test]
fn inference_text_outcome_lands_in_history() {
    let mut s = InnerState::new();
    s.request_start().unwrap();
    s.store_stopped_audio(vec![1000; 16000]);
    let job = s.begin_transcribe().unwrap();
    let r = s
        .apply_inference_outcome(
            InferenceOutcome::Text("bonjour".to_string()),
            job.duration_ms,
            TranscriptionMode::Local,
        )
        .unwrap();
    assert_eq!(r.text, "bonjour");
    assert_eq!(s.get_transcription_status().last_result.as_deref(), Some("bonjour"));
}

#[test]
fn transcription_status_reflects_processing() {
    let mut s = InnerState::new();
    s.request_start().unwrap();
    s.store_stopped_audio(vec![1000; 16000]);
    assert!(s.get_transcription_status().is_processing);
}

#[test]
fn clear_history_empties_only_the_history() {
    let mut s = InnerState::new();
    s.request_start().unwrap();
    s.store_stopped_audio(vec![1000; 16000]);
    let job = s.begin_transcribe().unwrap();
    s.record_transcription("one".to_string(), job.duration_ms, TranscriptionMode::Local);
    assert!(s.get_transcription_status().last_result.is_some());
    s.clear_history();
    assert!(s.get_transcription_status().last_result.is_none());
    assert_eq!(s.get_recording_status().status, RecordingStatus::Idle);
    assert_eq!(s.settings.max_history, 100);
}

#[test]
fn returned_id_names_the_stored_item() {
    let mut s = InnerState::new();
    s.request_start().unwrap();
    s.store_stopped_audio(vec![1000; 16000]);
    let job = s.begin_transcribe().unwrap();
    let r = s.record_transcription("hi".to_string(), job.duration_ms, TranscriptionMode::Local);
    let top = voxie::history::clone_history(&s.history);
    assert_eq!(top[0].id, r.item_id);
    assert!(r.item_id.len() >= 10);
    assert!(r.item_id.chars().all(|c| c.is_ascii_digit()));
}

#[test]
fn download_progress_bookkeeping() {
    let mut s = InnerState::new();
    s.begin_model_download();
    assert_eq!(s.get_recording_status().status, RecordingStatus::Idle);
    assert!(!s.note_download_progress(30)); // a 3% jump stays quiet
    assert!(s.note_download_progress(60)); // a 6% jump is surfaced
    assert!(!s.note_download_progress(100)); // only 4% beyond the last report
    assert!(s.note_download_progress(1000)); // completion always reports
    s.finish_model_download();
    s.set_model_status(ModelStatus::Loading);
    s.set_model_status(ModelStatus::Ready);
}
