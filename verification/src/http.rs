//! What the HTTP endpoints answer: the reading of an upload form, and the
//! status code and body of each reply.
use vstd::prelude::*;
use crate::error::{TranscribeError, transcribe_message};
use crate::ident::{parse_uuid, uuid_parse, uuid_text};
use crate::text::{str_eq, opt_str_text};
use crate::transcription::{Transcription, TranscriptionRow, encode_row};

verus! {

/// A reply of the API. The body of each variant is a JSON object (or, for
/// `Records`, an array of them).
#[derive(Debug)]
pub enum ApiReply {
    /// `{"error": message}` with the HTTP status `code`.
    Error { code: u16, message: String },
    /// 200, `{"status": "completed", "transcription": transcription}`.
    Completed { transcription: String },
    /// 500, `{"status": "failed", "error": error}`.
    Failed { error: String },
    /// 200, one record: `{"id", "filename", "status", "content"}`.
    Record(TranscriptionRow),
    /// 200, the records in order.
    Records(Vec<TranscriptionRow>),
}

/// The HTTP status code of a reply.
pub open spec fn reply_code(r: ApiReply) -> u16 {
    match r {
        ApiReply::Error { code, .. } => code,
        ApiReply::Completed { .. } => 200,
        ApiReply::Failed { .. } => 500,
        ApiReply::Record(_) => 200,
        ApiReply::Records(_) => 200,
    }
}

/// Whether `r` is the error reply with status `code` and message `m`.
pub open spec fn is_error_reply(r: ApiReply, code: u16, m: Seq<char>) -> bool {
    r matches ApiReply::Error { code: c, message } && c == code && message@ == m
}

/// The status code of each kind of reply: a found record, a listing and a
/// finished transcription are 200 (OK), a failed transcription is 500, and
/// an error reply carries its own code.
pub proof fn lemma_reply_codes(r: ApiReply)
    ensures
        r is Record ==> reply_code(r) == 200,
        r is Records ==> reply_code(r) == 200,
        r is Completed ==> reply_code(r) == 200,
        r is Failed ==> reply_code(r) == 500,
        r matches ApiReply::Error { code, .. } ==> reply_code(r) == code,
{
}

impl ApiReply {
    /// The HTTP status code of this reply.
    pub fn status_code(&self) -> (r: u16)
        ensures
            r == reply_code(*self),
            *self is Record ==> r == 200,
            *self is Records ==> r == 200,
            *self is Completed ==> r == 200,
            *self is Failed ==> r == 500,
            *self matches ApiReply::Error { code, .. } ==> r == code,
    {
        match self {
            ApiReply::Error { code, .. } => *code,
            ApiReply::Completed { .. } => 200,
            ApiReply::Failed { .. } => 500,
            ApiReply::Record(_) => 200,
            ApiReply::Records(_) => 200,
        }
    }
}

fn error_reply(code: u16, message: &str) -> (r: ApiReply)
    ensures
        is_error_reply(r, code, message@),
{
    ApiReply::Error { code, message: message.to_owned() }
}

/// The role of a multipart field, by its name.
#[derive(Clone, Copy, Debug, PartialEq, Eq, Structural)]
pub enum FieldRole {
    /// The audio file (`file`).
    File,
    /// The language code (`language`).
    Language,
    /// Anything else, which is ignored.
    Other,
}

/// The role of a field named `name` (a field without a name has the empty name).
pub open spec fn field_role_spec(name: Option<Seq<char>>) -> FieldRole {
    match name {
        Some(n) => if n == "file"@ {
            FieldRole::File
        } else if n == "language"@ {
            FieldRole::Language
        } else {
            FieldRole::Other
        },
        None => FieldRole::Other,
    }
}

/// The role of a multipart field, by its name.
pub fn field_role(name: Option<&str>) -> (r: FieldRole)
    ensures
        r == field_role_spec(opt_str_text(name)),
{
    match name {
        Some(n) => if str_eq(n, "file") {
            FieldRole::File
        } else if str_eq(n, "language") {
            FieldRole::Language
        } else {
            FieldRole::Other
        },
        None => FieldRole::Other,
    }
}

/// An upload form as its fields are read: the audio of the last `file`
/// field, that field's file name, and the last `language` text.
#[derive(Debug)]
pub struct UploadForm {
    pub audio: Option<Vec<u8>>,
    pub filename: String,
    pub language: Option<String>,
}

/// A complete upload: a file name, audio that is not empty, and an optional
/// language code.
#[derive(Debug)]
pub struct UploadRequest {
    pub filename: String,
    pub audio: Vec<u8>,
    pub language: Option<String>,
}

/// The message when the form holds no `file` field.
pub open spec fn missing_file_message() -> Seq<char> {
    "Campo 'file' não encontrado no formulário."@
}

/// The message when the uploaded file is empty.
pub open spec fn empty_file_message() -> Seq<char> {
    "Arquivo enviado está vazio."@
}

impl UploadForm {
    /// A form before any field is read: no audio, the file name `audio`, no
    /// language.
    pub fn new() -> (f: UploadForm)
        ensures
            f.audio is None,
            f.filename@ == "audio"@,
            f.language is None,
    {
        UploadForm { audio: None, filename: "audio".to_owned(), language: None }
    }

    /// Takes a `file` field: its file name (`audio.wav` when it has none) and
    /// its bytes replace what an earlier `file` field gave.
    pub fn accept_file(&mut self, file_name: Option<&str>, bytes: Vec<u8>)
        ensures
            final(self).audio == Some(bytes),
            final(self).filename@ == match file_name {
                Some(n) => n@,
                None => "audio.wav"@,
            },
            final(self).language == old(self).language,
    {
        self.filename = match file_name {
            Some(n) => n.to_owned(),
            None => "audio.wav".to_owned(),
        };
        self.audio = Some(bytes);
    }

    /// Takes a `language` field: its text, or nothing when it could not be
    /// read as text, replaces what an earlier one gave.
    pub fn accept_language(&mut self, text: Option<String>)
        ensures
            final(self).language == text,
            final(self).audio == old(self).audio,
            final(self).filename == old(self).filename,
    {
        self.language = text;
    }

    /// The upload that the form holds, or the 400 reply for a form without a
    /// `file` field or with an empty file.
    pub fn into_request(self) -> (r: Result<UploadRequest, ApiReply>)
        ensures
            match self.audio {
                None => (r matches Err(e) && is_error_reply(e, 400, missing_file_message())),
                Some(b) => if b@.len() == 0 {
                    (r matches Err(e) && is_error_reply(e, 400, empty_file_message()))
                } else {
                    (r matches Ok(q) && q.audio == b && q.filename == self.filename && q.language
                        == self.language)
                },
            },
    {
        match self.audio {
            None => Err(error_reply(400, "Campo 'file' não encontrado no formulário.")),
            Some(b) => if b.len() == 0 {
                Err(error_reply(400, "Arquivo enviado está vazio."))
            } else {
                Ok(UploadRequest { filename: self.filename, audio: b, language: self.language })
            },
        }
    }
}

/// The 400 reply when the bytes of the `file` field cannot be read.
pub fn file_read_failure(detail: &str) -> (r: ApiReply)
    ensures
        is_error_reply(r, 400, "Falha ao ler arquivo: "@ + detail@),
{
    let mut m = "Falha ao ler arquivo: ".to_owned();
    m.append(detail);
    ApiReply::Error { code: 400, message: m }
}

/// The reply to an upload: 200 with the text, or 500 with the message of
/// the error.
pub fn upload_reply(outcome: Result<String, TranscribeError>) -> (r: ApiReply)
    ensures
        match outcome {
            Ok(t) => (r matches ApiReply::Completed { transcription } && transcription == t),
            Err(e) => (r matches ApiReply::Failed { error } && error@ == transcribe_message(e)),
        },
{
    match outcome {
        Ok(t) => ApiReply::Completed { transcription: t },
        Err(e) => ApiReply::Failed { error: e.message() },
    }
}

/// The message when an identifier in a path does not parse.
pub open spec fn invalid_id_message() -> Seq<char> {
    "ID inválido."@
}

/// Reads the identifier of a `/transcriptions/:id` path: a UUID in any form
/// that `Uuid::parse_str` takes, or the 400 reply `ID inválido.`.
pub fn parse_transcription_id(id: &str) -> (r: Result<u128, ApiReply>)
    ensures
        match uuid_parse(id@) {
            Ok(v) => r == Ok::<u128, ApiReply>(v),
            Err(_) => (r matches Err(e) && is_error_reply(e, 400, invalid_id_message())),
        },
        forall|v: u128| id@ == #[trigger] uuid_text(v) ==> r == Ok::<u128, ApiReply>(v),
{
    match parse_uuid(id) {
        Ok(v) => Ok(v),
        Err(_) => Err(error_reply(400, "ID inválido.")),
    }
}

/// The message when no record has the identifier asked for.
pub open spec fn not_found_message() -> Seq<char> {
    "Transcrição não encontrada."@
}

/// The reply to a lookup: 200 with the record's fields as the store keeps
/// them, 404 when there is no such record, 500 with the store's error.
pub fn lookup_reply(found: Result<Option<Transcription>, String>) -> (r: ApiReply)
    ensures
        match found {
            Ok(Some(t)) => (r matches ApiReply::Record(row) && row@ == encode_row(t@)),
            Ok(None) => is_error_reply(r, 404, not_found_message()),
            Err(e) => is_error_reply(r, 500, e@),
        },
        (found matches Ok(Some(_))) ==> reply_code(r) == 200,
        (found matches Ok(None)) ==> reply_code(r) == 404,
        found is Err ==> reply_code(r) == 500,
{
    match found {
        Ok(Some(t)) => ApiReply::Record(t.to_row()),
        Ok(None) => error_reply(404, "Transcrição não encontrada."),
        Err(e) => ApiReply::Error { code: 500, message: e },
    }
}

/// The reply to a listing: 200 with every record's fields, in order, or 500
/// with the store's error.
pub fn listing_reply(found: Result<Vec<Transcription>, String>) -> (r: ApiReply)
    ensures
        match found {
            Ok(list) => (r matches ApiReply::Records(rows) && rows@.len() == list@.len() && forall|i: int|
                0 <= i < list@.len() ==> (#[trigger] rows@[i])@ == encode_row(list@[i]@)),
            Err(e) => is_error_reply(r, 500, e@),
        },
        found is Ok ==> reply_code(r) == 200,
        found is Err ==> reply_code(r) == 500,
{
    match found {
        Ok(list) => {
            let mut rows: Vec<TranscriptionRow> = Vec::new();
            let mut i: usize = 0;
            while i < list.len()
                invariant
                    i <= list@.len(),
                    rows@.len() == i,
                    forall|j: int| 0 <= j < i ==> (#[trigger] rows@[j])@ == encode_row(list@[j]@),
                decreases list.len() - i,
            {
                rows.push(list[i].to_row());
                i = i + 1;
            }
            ApiReply::Records(rows)
        },
        Err(e) => ApiReply::Error { code: 500, message: e },
    }
}

} // verus!
