//! The recording-session state machine and the state it guards: status,
//! settings, pending audio and history, coordinated across start, stop
//! and transcribe requests.
//!
//! Long outside work — device capture, model construction, the blocking
//! recognition call — happens between these functions; each one is a
//! single synchronous step on the state, so no lock need ever be held
//! across a suspension.

use vstd::prelude::*;
use crate::audio::duration_ms_spec;
use crate::audio::samples_to_ms;
use crate::audio::TARGET_SAMPLE_RATE;
use crate::clock::make_id;
use crate::clock::utc_now_seconds;
use crate::errors::AppError;
use crate::history::HistoryItem;
use crate::history::push_bounded_spec;
use crate::history::push_history;
use crate::settings::AppSettings;
use crate::settings::TranscriptionMode;

verus! {

/// Where the session stands.
#[derive(Debug, Clone, Copy, PartialEq, Eq, Structural)]
pub enum RecordingStatus {
    /// Nothing running; start is welcome.
    Idle,
    /// The capture stream is live and accumulating samples.
    Recording,
    /// A stopped recording is pending transcription.
    Processing,
}

impl Default for RecordingStatus {
    fn default() -> (r: Self)
        ensures
            r == RecordingStatus::Idle,
    {
        RecordingStatus::Idle
    }
}

/// Where the selected model stands, for observability.
#[derive(Debug, Clone, Copy, PartialEq, Eq, Structural)]
pub enum ModelStatus {
    NotDownloaded,
    Downloading,
    Downloaded,
    Loading,
    Ready,
}

impl Default for ModelStatus {
    fn default() -> (r: Self)
        ensures
            r == ModelStatus::NotDownloaded,
    {
        ModelStatus::NotDownloaded
    }
}

/// The three requests the session answers.
#[derive(Debug, Clone, Copy, PartialEq, Eq, Structural)]
pub enum SessionRequest {
    Start,
    Stop,
    Transcribe,
}

/// Which requests each state admits: Idle admits only start, Recording
/// only stop, Processing only transcribe.
pub open spec fn request_allowed_spec(st: RecordingStatus, req: SessionRequest) -> bool {
    match req {
        SessionRequest::Start => st is Idle,
        SessionRequest::Stop => st is Recording,
        SessionRequest::Transcribe => st is Processing,
    }
}

/// The error a rejected request is refused with.
pub open spec fn rejection_spec(st: RecordingStatus, req: SessionRequest) -> AppError {
    match req {
        SessionRequest::Start => if st is Recording {
            AppError::AlreadyRecording
        } else {
            AppError::InvalidState
        },
        SessionRequest::Stop => AppError::NotRecording,
        SessionRequest::Transcribe => AppError::InvalidState,
    }
}

/// Status after a start request (the capture device still has to come
/// up; a device failure is rolled back separately).
pub open spec fn status_after_start_spec(st: RecordingStatus) -> RecordingStatus {
    if st is Idle {
        RecordingStatus::Recording
    } else {
        st
    }
}

/// Status after a stop request whose capture hand-off went through.
pub open spec fn status_after_stop_spec(st: RecordingStatus) -> RecordingStatus {
    if st is Recording {
        RecordingStatus::Processing
    } else {
        st
    }
}

/// Status after a transcription has run its course — success, domain
/// error, missing audio or timeout alike.
pub open spec fn status_after_transcribe_spec(st: RecordingStatus) -> RecordingStatus {
    if st is Processing {
        RecordingStatus::Idle
    } else {
        st
    }
}

/// Everything the session lock guards.
pub struct InnerState {
    pub recording_status: RecordingStatus,
    pub model_status: ModelStatus,
    pub settings: AppSettings,
    /// Finished transcriptions, newest first, bounded by the settings.
    pub history: Vec<HistoryItem>,
    /// Download progress in thousandths.
    pub download_progress_permille: u32,
    /// The stopped recording waiting for transcription, one at most.
    pub audio_buffer: Option<Vec<i16>>,
    /// Translations performed today.
    pub translation_day_count: u32,
    /// The day the count belongs to, as `YYYY-MM-DD`.
    pub translation_day_date: String,
}

/// Answer to a status query.
#[derive(Debug)]
pub struct RecordingStatusResponse {
    pub status: RecordingStatus,
    pub duration_ms: u64,
    pub sample_count: usize,
}

/// Answer to a stop request: how much audio the recording yielded.
#[derive(Debug)]
pub struct StopRecordingResponse {
    pub sample_count: usize,
    pub duration_ms: u64,
}

/// Answer to a transcription-status query.
#[derive(Debug)]
pub struct TranscriptionStatusResponse {
    pub is_processing: bool,
    pub last_result: Option<String>,
}

/// Answer to a successful transcription.
#[derive(Debug)]
pub struct TranscribeResult {
    pub text: String,
    pub duration_ms: u64,
    pub item_id: String,
}

/// The work a transcription request takes out of the session: the audio
/// it owns from here on, a settings snapshot, and the audio's length.
#[derive(Debug)]
pub struct TranscribeJob {
    pub audio: Vec<i16>,
    pub settings: AppSettings,
    pub duration_ms: u64,
}

impl InnerState {
    /// A fresh session: idle, no model, default settings, empty history.
    pub fn new() -> (r: Self)
        ensures
            r.recording_status == RecordingStatus::Idle,
            r.model_status == ModelStatus::NotDownloaded,
            r.history@ =~= Seq::<HistoryItem>::empty(),
            r.download_progress_permille == 0,
            r.audio_buffer is None,
            r.translation_day_count == 0,
            r.translation_day_date@ == Seq::<char>::empty(),
            r.settings.mode == TranscriptionMode::Local,
            r.settings.local_model@ == "small"@,
            r.settings.cloud_provider == crate::settings::CloudProvider::OpenAI,
            r.settings.cloud_base_url@ == "https://api.openai.com/v1"@,
            r.settings.cloud_api_key@ == Seq::<char>::empty(),
            r.settings.shortcut_key@ == "Alt"@,
            r.settings.language@ == "auto"@,
            r.settings.window_opacity_permille == 850,
            r.settings.auto_copy == true,
            r.settings.max_history == 100,
            r.settings.theme@ == "green"@,
            r.settings.my_memory_key@ == Seq::<char>::empty(),
    {
        InnerState {
            recording_status: RecordingStatus::default(),
            model_status: ModelStatus::default(),
            settings: AppSettings::default(),
            history: Vec::new(),
            download_progress_permille: 0,
            audio_buffer: None,
            translation_day_count: 0,
            translation_day_date: String::new(),
        }
    }

    /// Answer a start request: only Idle admits it; on acceptance the
    /// session is Recording and any stale buffer is dropped.
    pub fn request_start(&mut self) -> (r: Result<(), AppError>)
        ensures
            r is Ok <==> request_allowed_spec(old(self).recording_status, SessionRequest::Start),
            r is Err ==> *final(self) == *old(self) && r == Err::<(), AppError>(
                rejection_spec(old(self).recording_status, SessionRequest::Start),
            ),
            r is Ok ==> {
                &&& final(self).recording_status == status_after_start_spec(
                    old(self).recording_status,
                )
                &&& final(self).audio_buffer is None
                &&& final(self).history == old(self).history
                &&& final(self).settings == old(self).settings
                &&& final(self).model_status == old(self).model_status
                &&& final(self).download_progress_permille == old(
                    self,
                ).download_progress_permille
                &&& final(self).translation_day_count == old(self).translation_day_count
                &&& final(self).translation_day_date == old(self).translation_day_date
            },
    {
        match self.recording_status {
            RecordingStatus::Idle => {
                self.recording_status = RecordingStatus::Recording;
                self.audio_buffer = None;
                Ok(())
            },
            RecordingStatus::Recording => Err(AppError::AlreadyRecording),
            RecordingStatus::Processing => Err(AppError::InvalidState),
        }
    }

    /// Roll an accepted start back after the capture device refused to
    /// come up: the session returns to Idle, nothing else moves.
    pub fn start_failed(&mut self)
        requires
            old(self).recording_status == RecordingStatus::Recording,
        ensures
            final(self).recording_status == RecordingStatus::Idle,
            final(self).audio_buffer == old(self).audio_buffer,
            final(self).history == old(self).history,
            final(self).settings == old(self).settings,
            final(self).model_status == old(self).model_status,
            final(self).download_progress_permille == old(self).download_progress_permille,
            final(self).translation_day_count == old(self).translation_day_count,
            final(self).translation_day_date == old(self).translation_day_date,
    {
        self.recording_status = RecordingStatus::Idle;
    }

    /// Gate a stop request: only Recording admits it.  The capture
    /// hand-off follows outside the lock; `store_stopped_audio` then
    /// records its result.
    pub fn request_stop(&self) -> (r: Result<(), AppError>)
        ensures
            r is Ok <==> request_allowed_spec(self.recording_status, SessionRequest::Stop),
            r is Err ==> r == Err::<(), AppError>(
                rejection_spec(self.recording_status, SessionRequest::Stop),
            ),
    {
        match self.recording_status {
            RecordingStatus::Recording => Ok(()),
            _ => Err(AppError::NotRecording),
        }
    }

    /// Record the normalized audio a stopped capture handed over: the
    /// session turns to Processing with the audio pending.
    pub fn store_stopped_audio(&mut self, audio: Vec<i16>) -> (r: StopRecordingResponse)
        requires
            old(self).recording_status == RecordingStatus::Recording,
        ensures
            final(self).recording_status == status_after_stop_spec(old(self).recording_status),
            final(self).audio_buffer == Some(audio),
            final(self).history == old(self).history,
            final(self).settings == old(self).settings,
            final(self).model_status == old(self).model_status,
            final(self).download_progress_permille == old(self).download_progress_permille,
            final(self).translation_day_count == old(self).translation_day_count,
            final(self).translation_day_date == old(self).translation_day_date,
            r.sample_count == audio@.len(),
            duration_ms_spec(audio@.len() as int, TARGET_SAMPLE_RATE as int) <= u64::MAX
                ==> r.duration_ms == duration_ms_spec(
                audio@.len() as int,
                TARGET_SAMPLE_RATE as int,
            ),
    {
        let sample_count = audio.len();
        let duration_ms = samples_to_ms(sample_count, TARGET_SAMPLE_RATE);
        self.audio_buffer = Some(audio);
        self.recording_status = RecordingStatus::Processing;
        StopRecordingResponse { sample_count, duration_ms }
    }

    /// Answer a status query: the state, and how much audio is pending.
    pub fn get_recording_status(&self) -> (r: RecordingStatusResponse)
        ensures
            r.status == self.recording_status,
            r.sample_count == match self.audio_buffer {
                Some(b) => b@.len() as int,
                None => 0int,
            },
            duration_ms_spec(r.sample_count as int, TARGET_SAMPLE_RATE as int) <= u64::MAX
                ==> r.duration_ms == duration_ms_spec(
                r.sample_count as int,
                TARGET_SAMPLE_RATE as int,
            ),
    {
        let sample_count = match &self.audio_buffer {
            Some(b) => b.len(),
            None => 0,
        };
        RecordingStatusResponse {
            status: self.recording_status,
            duration_ms: samples_to_ms(sample_count, TARGET_SAMPLE_RATE),
            sample_count,
        }
    }

    /// Answer a transcription-status query: whether a pass is running,
    /// and the newest result if any.
    pub fn get_transcription_status(&self) -> (r: TranscriptionStatusResponse)
        ensures
            r.is_processing == (self.recording_status is Processing),
            match r.last_result {
                Some(t) => self.history@.len() > 0 && t@ == self.history@[0].text@,
                None => self.history@.len() == 0,
            },
    {
        let last_result = if self.history.len() > 0 {
            Some(self.history[0].text.clone())
        } else {
            None
        };
        TranscriptionStatusResponse {
            is_processing: match self.recording_status {
                RecordingStatus::Processing => true,
                _ => false,
            },
            last_result,
        }
    }

    /// Begin a transcription: only Processing admits it; the pending
    /// buffer is taken out whole, or its absence ends the session Idle
    /// with `NoAudioData`.
    pub fn begin_transcribe(&mut self) -> (r: Result<TranscribeJob, AppError>)
        ensures
            old(self).recording_status != RecordingStatus::Processing ==> {
                &&& r == Err::<TranscribeJob, AppError>(
                    rejection_spec(old(self).recording_status, SessionRequest::Transcribe),
                )
                &&& *final(self) == *old(self)
            },
            old(self).recording_status == RecordingStatus::Processing && match old(
                self,
            ).audio_buffer {
                Some(b) => b@.len() == 0,
                None => true,
            } ==> {
                &&& r == Err::<TranscribeJob, AppError>(AppError::NoAudioData)
                &&& final(self).recording_status == status_after_transcribe_spec(
                    old(self).recording_status,
                )
                &&& final(self).audio_buffer is None
            },
            old(self).recording_status == RecordingStatus::Processing && match old(
                self,
            ).audio_buffer {
                Some(b) => b@.len() > 0,
                None => false,
            } ==> match r {
                Ok(job) => {
                    &&& Some(job.audio) == old(self).audio_buffer
                    &&& job.settings == old(self).settings
                    &&& duration_ms_spec(job.audio@.len() as int, TARGET_SAMPLE_RATE as int)
                        <= u64::MAX ==> job.duration_ms == duration_ms_spec(
                        job.audio@.len() as int,
                        TARGET_SAMPLE_RATE as int,
                    )
                    &&& final(self).recording_status == RecordingStatus::Processing
                    &&& final(self).audio_buffer is None
                },
                Err(_) => false,
            },
            final(self).history == old(self).history,
            final(self).settings == old(self).settings,
            final(self).model_status == old(self).model_status,
            final(self).download_progress_permille == old(self).download_progress_permille,
            final(self).translation_day_count == old(self).translation_day_count,
            final(self).translation_day_date == old(self).translation_day_date,
    {
        match self.recording_status {
            RecordingStatus::Idle => Err(AppError::InvalidState),
            RecordingStatus::Recording => Err(AppError::InvalidState),
            RecordingStatus::Processing => {
                let mut taken: Option<Vec<i16>> = None;
                core::mem::swap(&mut taken, &mut self.audio_buffer);
                match taken {
                    None => {
                        self.recording_status = RecordingStatus::Idle;
                        Err(AppError::NoAudioData)
                    },
                    Some(audio) => {
                        if audio.len() == 0 {
                            self.recording_status = RecordingStatus::Idle;
                            Err(AppError::NoAudioData)
                        } else {
                            let duration_ms = samples_to_ms(audio.len(), TARGET_SAMPLE_RATE);
                            let settings = self.settings.duplicate();
                            Ok(TranscribeJob { audio, settings, duration_ms })
                        }
                    },
                }
            },
        }
    }

    /// Close a successful transcription: the result joins the history
    /// under the cap, the buffer is gone, and the session is Idle.
    pub fn finish_transcribe_success(
        &mut self,
        text: String,
        duration_ms: u64,
        mode: TranscriptionMode,
        id: String,
        timestamp: i64,
    ) -> (r: TranscribeResult)
        requires
            old(self).recording_status == RecordingStatus::Processing,
            old(self).history@.len() < usize::MAX,
        ensures
            final(self).recording_status == status_after_transcribe_spec(
                old(self).recording_status,
            ),
            final(self).audio_buffer is None,
            final(self).history@ == push_bounded_spec(
                old(self).history@,
                HistoryItem {
                    id: id,
                    text: text,
                    timestamp: timestamp,
                    duration_ms: duration_ms,
                    mode: mode,
                    model_name: None,
                },
                old(self).settings.max_history as int,
            ),
            final(self).settings == old(self).settings,
            final(self).model_status == old(self).model_status,
            final(self).download_progress_permille == old(self).download_progress_permille,
            final(self).translation_day_count == old(self).translation_day_count,
            final(self).translation_day_date == old(self).translation_day_date,
            old(self).settings.max_history >= 1 ==> {
                &&& final(self).history@.len() >= 1
                &&& final(self).history@[0].text@ == text@
                &&& final(self).history@[0].duration_ms == duration_ms
                &&& final(self).history@[0].mode == mode
                &&& final(self).history@[0].id@ == id@
                &&& final(self).history@[0].timestamp == timestamp
            },
            r.text@ == text@,
            r.duration_ms == duration_ms,
            r.item_id@ == id@,
    {
        let result_text = text.clone();
        let item_id = id.clone();
        let item = HistoryItem {
            id,
            text,
            timestamp,
            duration_ms,
            mode,
            model_name: None,
        };
        let ghost git = item;
        let ghost h0 = self.history@;
        let max = self.settings.max_history;
        push_history(&mut self.history, item, max);
        proof {
            if max >= 1 {
                let grown = h0.insert(0, git);
                assert(grown[0] == git);
                if grown.len() > max {
                    assert(push_bounded_spec(h0, git, max as int)[0] == grown[0]);
                }
            }
        }
        self.audio_buffer = None;
        self.recording_status = RecordingStatus::Idle;
        TranscribeResult { text: result_text, duration_ms, item_id }
    }

    /// Close a failed or timed-out transcription: the buffer is
    /// discarded whole and the session is Idle; the history keeps only
    /// what succeeded.
    pub fn finish_transcribe_failure(&mut self)
        requires
            old(self).recording_status == RecordingStatus::Processing,
        ensures
            final(self).recording_status == status_after_transcribe_spec(
                old(self).recording_status,
            ),
            final(self).audio_buffer is None,
            final(self).history == old(self).history,
            final(self).settings == old(self).settings,
            final(self).model_status == old(self).model_status,
            final(self).download_progress_permille == old(self).download_progress_permille,
            final(self).translation_day_count == old(self).translation_day_count,
            final(self).translation_day_date == old(self).translation_day_date,
    {
        self.audio_buffer = None;
        self.recording_status = RecordingStatus::Idle;
    }

    /// Close a successful transcription with a freshly minted id and the
    /// current time.  Whatever the clock reads, the result lands at the
    /// front of the history and the session ends Idle.
    pub fn record_transcription(
        &mut self,
        text: String,
        duration_ms: u64,
        mode: TranscriptionMode,
    ) -> (r: TranscribeResult)
        requires
            old(self).recording_status == RecordingStatus::Processing,
            old(self).history@.len() < usize::MAX,
        ensures
            final(self).recording_status == RecordingStatus::Idle,
            final(self).audio_buffer is None,
            old(self).settings.max_history >= 1 ==> {
                &&& final(self).history@.len() >= 1
                &&& final(self).history@[0].text@ == text@
                &&& final(self).history@[0].duration_ms == duration_ms
                &&& final(self).history@[0].mode == mode
                &&& final(self).history@[0].id@ == r.item_id@
            },
            final(self).settings == old(self).settings,
            r.text@ == text@,
            r.duration_ms == duration_ms,
            r.item_id@.len() >= 10,
            forall|k: int| 0 <= k < r.item_id@.len() ==> '0' <= #[trigger] r.item_id@[k] <= '9',
    {
        let id = make_id();
        let timestamp = utc_now_seconds();
        self.finish_transcribe_success(text, duration_ms, mode, id, timestamp)
    }
}

/// How one recognition pass ended, as the worker race decided it: the
/// worker's answer, its failure, or the timeout elapsing first (the
/// abandoned worker may still finish; its result is discarded).
pub enum InferenceOutcome {
    /// The recognition call returned this text.
    Text(String),
    /// The recognition call failed mid-run; partial text is discarded.
    Failed,
    /// The time bound elapsed before the worker answered.
    TimedOut,
}

impl InnerState {
    /// Close a transcription with whatever the worker race decided.
    /// Whatever the outcome, the session ends Idle with no pending
    /// buffer; only a returned text enters the history.
    pub fn apply_inference_outcome(
        &mut self,
        outcome: InferenceOutcome,
        duration_ms: u64,
        mode: TranscriptionMode,
    ) -> (r: Result<TranscribeResult, AppError>)
        requires
            old(self).recording_status == RecordingStatus::Processing,
            old(self).history@.len() < usize::MAX,
        ensures
            final(self).recording_status == RecordingStatus::Idle,
            final(self).audio_buffer is None,
            final(self).settings == old(self).settings,
            match outcome {
                InferenceOutcome::Text(text) => {
                    &&& match r {
                        Ok(res) => {
                            &&& res.text@ == text@
                            &&& res.duration_ms == duration_ms
                            &&& (old(self).settings.max_history >= 1
                                ==> final(self).history@[0].id@ == res.item_id@)
                        },
                        Err(_) => false,
                    }
                    &&& (old(self).settings.max_history >= 1 ==> {
                        &&& final(self).history@.len() >= 1
                        &&& final(self).history@[0].text@ == text@
                        &&& final(self).history@[0].duration_ms == duration_ms
                        &&& final(self).history@[0].mode == mode
                    })
                },
                InferenceOutcome::Failed => {
                    &&& r == Err::<TranscribeResult, AppError>(AppError::InferenceFailure)
                    &&& final(self).history == old(self).history
                },
                InferenceOutcome::TimedOut => {
                    &&& r == Err::<TranscribeResult, AppError>(AppError::InferenceTimeout)
                    &&& final(self).history == old(self).history
                },
            },
    {
        match outcome {
            InferenceOutcome::Text(text) => Ok(self.record_transcription(
                text,
                duration_ms,
                mode,
            )),
            InferenceOutcome::Failed => {
                self.finish_transcribe_failure();
                Err(AppError::InferenceFailure)
            },
            InferenceOutcome::TimedOut => {
                self.finish_transcribe_failure();
                Err(AppError::InferenceTimeout)
            },
        }
    }

    /// Empty the transcription history; nothing else moves.
    pub fn clear_history(&mut self)
        ensures
            final(self).history@ == Seq::<HistoryItem>::empty(),
            final(self).recording_status == old(self).recording_status,
            final(self).model_status == old(self).model_status,
            final(self).settings == old(self).settings,
            final(self).download_progress_permille == old(self).download_progress_permille,
            final(self).audio_buffer == old(self).audio_buffer,
            final(self).translation_day_count == old(self).translation_day_count,
            final(self).translation_day_date == old(self).translation_day_date,
    {
        self.history.clear();
    }

    /// Note that a model download has begun.
    pub fn begin_model_download(&mut self)
        ensures
            final(self).model_status == ModelStatus::Downloading,
            final(self).download_progress_permille == 0,
            final(self).recording_status == old(self).recording_status,
            final(self).settings == old(self).settings,
            final(self).history == old(self).history,
            final(self).audio_buffer == old(self).audio_buffer,
            final(self).translation_day_count == old(self).translation_day_count,
            final(self).translation_day_date == old(self).translation_day_date,
    {
        self.model_status = ModelStatus::Downloading;
        self.download_progress_permille = 0;
    }

    /// Record download progress when the jump is worth surfacing; the
    /// result says whether to notify observers.
    pub fn note_download_progress(&mut self, permille: u32) -> (r: bool)
        ensures
            r == (permille > old(self).download_progress_permille + 50 || permille >= 1000),
            r ==> final(self).download_progress_permille == permille,
            !r ==> final(self).download_progress_permille == old(
                self,
            ).download_progress_permille,
            final(self).model_status == old(self).model_status,
            final(self).recording_status == old(self).recording_status,
            final(self).settings == old(self).settings,
            final(self).history == old(self).history,
            final(self).audio_buffer == old(self).audio_buffer,
            final(self).translation_day_count == old(self).translation_day_count,
            final(self).translation_day_date == old(self).translation_day_date,
    {
        let due = crate::model::progress_report_due(self.download_progress_permille, permille);
        if due {
            self.download_progress_permille = permille;
        }
        due
    }

    /// Note that a model download has finished.
    pub fn finish_model_download(&mut self)
        ensures
            final(self).model_status == ModelStatus::Downloaded,
            final(self).download_progress_permille == 1000,
            final(self).recording_status == old(self).recording_status,
            final(self).settings == old(self).settings,
            final(self).history == old(self).history,
            final(self).audio_buffer == old(self).audio_buffer,
            final(self).translation_day_count == old(self).translation_day_count,
            final(self).translation_day_date == old(self).translation_day_date,
    {
        self.model_status = ModelStatus::Downloaded;
        self.download_progress_permille = 1000;
    }

    /// Note that a model load has begun or ended, for observability.
    pub fn set_model_status(&mut self, status: ModelStatus)
        ensures
            final(self).model_status == status,
            final(self).recording_status == old(self).recording_status,
            final(self).settings == old(self).settings,
            final(self).history == old(self).history,
            final(self).audio_buffer == old(self).audio_buffer,
            final(self).download_progress_permille == old(self).download_progress_permille,
            final(self).translation_day_count == old(self).translation_day_count,
            final(self).translation_day_date == old(self).translation_day_date,
    {
        self.model_status = status;
    }
}

/// Law: Idle rejects stop and transcribe, Recording rejects start,
/// Processing rejects start and stop; each state admits exactly one
/// request.
pub proof fn lemma_state_machine_rejections()
    ensures
        !request_allowed_spec(RecordingStatus::Idle, SessionRequest::Stop),
        !request_allowed_spec(RecordingStatus::Idle, SessionRequest::Transcribe),
        !request_allowed_spec(RecordingStatus::Recording, SessionRequest::Start),
        !request_allowed_spec(RecordingStatus::Recording, SessionRequest::Transcribe),
        !request_allowed_spec(RecordingStatus::Processing, SessionRequest::Start),
        !request_allowed_spec(RecordingStatus::Processing, SessionRequest::Stop),
        forall|st: RecordingStatus, req: SessionRequest|
            request_allowed_spec(st, req) ==> match st {
                RecordingStatus::Idle => req == SessionRequest::Start,
                RecordingStatus::Recording => req == SessionRequest::Stop,
                RecordingStatus::Processing => req == SessionRequest::Transcribe,
            },
{
}

/// Law: a full start → stop → transcribe pass beginning Idle ends Idle,
/// whatever the transcription's outcome — the outcome does not appear in
/// the composition at all.
pub proof fn lemma_cycle_ends_idle()
    ensures
        status_after_transcribe_spec(
            status_after_stop_spec(status_after_start_spec(RecordingStatus::Idle)),
        ) == RecordingStatus::Idle,
{
}

} // verus!
