//! The errors of decoding and transcription, and their messages.
use vstd::prelude::*;

verus! {

/// What can go wrong while preparing audio and running the speech model.
/// Each variant carries the detail text of its cause.
#[derive(Debug)]
pub enum WhisperError {
    ModelLoad(String),
    StateCreate(String),
    Processing(String),
    ModelNotFound(String),
    InvalidAudio(String),
    FfmpegNotFound(String),
    Io(String),
}

/// What the transcription use case can fail with.
#[derive(Debug)]
pub enum TranscribeError {
    Repository(String),
    Whisper(WhisperError),
}

/// The message of a decoding or transcription error.
pub open spec fn whisper_message(e: WhisperError) -> Seq<char> {
    match e {
        WhisperError::ModelLoad(d) => "Falha ao carregar o modelo Whisper: "@ + d@,
        WhisperError::StateCreate(d) => "Falha ao criar estado de processamento: "@ + d@,
        WhisperError::Processing(d) => "Falha ao processar o áudio: "@ + d@,
        WhisperError::ModelNotFound(d) => "Arquivo de modelo não encontrado: "@ + d@,
        WhisperError::InvalidAudio(d) => "Formato de áudio inválido ou não suportado: "@ + d@,
        WhisperError::FfmpegNotFound(d) => "ffmpeg não encontrado. Instale o ffmpeg para suporte a MP3/MP4/OGG: "@
            + d@,
        WhisperError::Io(d) => "Erro de I/O: "@ + d@,
    }
}

/// The message of a use-case error.
pub open spec fn transcribe_message(e: TranscribeError) -> Seq<char> {
    match e {
        TranscribeError::Repository(d) => "Repositório: "@ + d@,
        TranscribeError::Whisper(w) => "Whisper: "@ + whisper_message(w),
    }
}

/// `prefix` followed by `detail`.
fn prefixed(prefix: &str, detail: &str) -> (r: String)
    ensures
        r@ == prefix@ + detail@,
{
    let mut r = prefix.to_owned();
    r.append(detail);
    r
}

impl WhisperError {
    /// The message shown for this error.
    pub fn message(&self) -> (r: String)
        ensures
            r@ == whisper_message(*self),
    {
        match self {
            WhisperError::ModelLoad(d) => prefixed("Falha ao carregar o modelo Whisper: ", d.as_str()),
            WhisperError::StateCreate(d) => prefixed("Falha ao criar estado de processamento: ", d.as_str()),
            WhisperError::Processing(d) => prefixed("Falha ao processar o áudio: ", d.as_str()),
            WhisperError::ModelNotFound(d) => prefixed("Arquivo de modelo não encontrado: ", d.as_str()),
            WhisperError::InvalidAudio(d) => prefixed("Formato de áudio inválido ou não suportado: ", d.as_str()),
            WhisperError::FfmpegNotFound(d) => prefixed(
                "ffmpeg não encontrado. Instale o ffmpeg para suporte a MP3/MP4/OGG: ",
                d.as_str(),
            ),
            WhisperError::Io(d) => prefixed("Erro de I/O: ", d.as_str()),
        }
    }
}

impl TranscribeError {
    /// The message shown for this error.
    pub fn message(&self) -> (r: String)
        ensures
            r@ == transcribe_message(*self),
    {
        match self {
            TranscribeError::Repository(d) => prefixed("Repositório: ", d.as_str()),
            TranscribeError::Whisper(w) => {
                let inner = w.message();
                prefixed("Whisper: ", inner.as_str())
            },
        }
    }
}

impl From<WhisperError> for TranscribeError {
    fn from(e: WhisperError) -> (r: TranscribeError) {
        TranscribeError::Whisper(e)
    }
}

impl vstd::std_specs::convert::FromSpecImpl<WhisperError> for TranscribeError {
    open spec fn obeys_from_spec() -> bool {
        true
    }

    open spec fn from_spec(e: WhisperError) -> TranscribeError {
        TranscribeError::Whisper(e)
    }
}

} // verus!
