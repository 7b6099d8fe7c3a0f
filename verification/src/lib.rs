//! Verified core of an audio transcription service: the record model and
//! its lifecycle, the row encoding used by the store, WAV parsing, the
//! transcription workflow and the decisions behind the HTTP answers.

pub mod text;
pub mod status;
pub mod ident;
pub mod transcription;
pub mod error;
pub mod wav;
pub mod transcriber;
pub mod convert;
pub mod store;
pub mod workflow;
pub mod http;
pub mod table;
