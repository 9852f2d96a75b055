//! The whole pipeline, end to end, against a stub engine: capture at a
//! device-native format, normalization at stop, the session hand-offs,
//! and the result landing in the history.

use voxie::audio::{is_silent, samples_to_ms};
use voxie::capture::AudioRecorder;
use voxie::engine::{LoadDecision, WhisperEngine};
use voxie::inference::assemble_transcript;
use voxie::model::{WhisperModel, MIN_MODEL_FILE_BYTES};
use voxie::session::{InnerState, RecordingStatus};
use voxie::settings::TranscriptionMode;

#[test]
fn two_seconds_of_stereo_at_48khz_transcribe_to_hello() {
    let mut session = InnerState::new();
    let mut recorder = AudioRecorder::new();
    let mut engine = WhisperEngine::new();

    // start: the session accepts, then the device comes up at its
    // native 48 kHz stereo
    session.request_start().unwrap();
    recorder.start(48000, 2);
    assert!(recorder.is_recording());

    // two seconds of constant-amplitude samples arrive in chunks
    let chunk: Vec<i16> = vec![3000; 9600]; // 0.1 s of stereo frames
    for _ in 0..20 {
        recorder.push_samples(&chunk);
    }
    assert_eq!(recorder.buffer_len(), 192000);

    // stop: the capture hands over normalized audio
    session.request_stop().unwrap();
    let captured = recorder.stop();
    assert!(!recorder.is_recording());
    assert_eq!(captured.samples.len(), 32000); // ~2 s at 16 kHz
    assert!(captured.samples.iter().all(|&s| s == 3000));
    assert!(!captured.quiet_warning); // plenty of energy
    assert!(!is_silent(&captured.samples));

    let stop_resp = session.store_stopped_audio(captured.samples);
    assert_eq!(stop_resp.sample_count, 32000);
    assert_eq!(stop_resp.duration_ms, 2000);

    // transcribe: the session hands the buffer out once
    let job = session.begin_transcribe().unwrap();
    assert_eq!(job.duration_ms, 2000);

    // the model is ensured loaded exactly once
    let model = WhisperModel::Small;
    let file_size = Some(MIN_MODEL_FILE_BYTES + 7);
    assert_eq!(
        engine.ensure_loaded_step(&model, file_size),
        Ok(LoadDecision::NeedsLoad)
    );
    engine.note_load_success(&model);
    assert_eq!(
        engine.ensure_loaded_step(&model, file_size),
        Ok(LoadDecision::AlreadyLoaded)
    );

    // the gates pass and a plan comes out
    let plan = engine
        .prepare_transcribe(&job.audio, job.settings.language.as_str(), false)
        .unwrap();
    assert!(plan.language.is_none()); // the default setting is auto
    assert!(!plan.translate);

    // a stub engine returns one segment
    let segments = vec![" hello ".to_string()];
    let text = assemble_transcript(&segments);
    assert_eq!(text, "hello");

    let result = session.record_transcription(text, job.duration_ms, TranscriptionMode::Local);
    assert_eq!(result.text, "hello");
    assert_eq!(result.duration_ms, 2000);
    assert!(result.item_id.len() >= 10);

    // the session ends Idle with the item on top of the history
    let st = session.get_recording_status();
    assert_eq!(st.status, RecordingStatus::Idle);
    assert_eq!(st.sample_count, 0);
    let ts = session.get_transcription_status();
    assert_eq!(ts.last_result.as_deref(), Some("hello"));
}

#[test]
fn restarting_capture_drops_the_old_buffer() {
    let mut recorder = AudioRecorder::new();
    recorder.start(44100, 1);
    recorder.push_samples(&[5; 441]);
    assert_eq!(recorder.buffer_len(), 441);
    recorder.start(48000, 2);
    assert_eq!(recorder.buffer_len(), 0);
}

#[test]
fn stop_of_a_silent_capture_warns_but_succeeds() {
    let mut recorder = AudioRecorder::new();
    recorder.start(16000, 1);
    recorder.push_samples(&[0; 16000]);
    let captured = recorder.stop();
    assert_eq!(captured.samples.len(), 16000);
    assert!(captured.quiet_warning);
    // silence is a valid capture; inference is what refuses it later
    assert_eq!(samples_to_ms(captured.samples.len(), 16000), 1000);
}
