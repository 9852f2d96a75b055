//! Core of a local speech-transcription pipeline.
//!
//! The crate owns the pure, verifiable heart of the system: sample-rate and
//! channel normalization of PCM audio, the recording-session state machine,
//! the model-lifecycle bookkeeping, the inference preparation and result
//! assembly, and the bounded transcription history.  Device capture, the
//! native recognition engine and all network traffic live outside, behind
//! plain-value interfaces; audio samples are carried as 16-bit fixed-point
//! PCM (full scale 32767).

pub mod audio;
pub mod capture;
pub mod clock;
pub mod cloud;
pub mod engine;
pub mod errors;
pub mod history;
pub mod inference;
pub mod settings;
pub mod model;
pub mod session;
pub mod text;
pub mod translate;
pub mod wav;
