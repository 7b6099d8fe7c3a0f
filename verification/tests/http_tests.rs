use transcription_service::error::{TranscribeError, WhisperError};
use transcription_service::http::{
    field_role, file_read_failure, listing_reply, lookup_reply, parse_transcription_id,
    upload_reply, ApiReply, FieldRole, UploadForm,
};
use transcription_service::status::TranscriptionStatus;
use transcription_service::transcription::Transcription;

fn error_of(r: &ApiReply) -> (u16, String) {
    match r {
        ApiReply::Error { code, message } => (*code, message.clone()),
        other => panic!("expected an error reply, got {:?}", other),
    }
}

#[test]
fn field_roles() {
    assert_eq!(field_role(Some("file")), FieldRole::File);
    assert_eq!(field_role(Some("language")), FieldRole::Language);
    assert_eq!(field_role(Some("other")), FieldRole::Other);
    assert_eq!(field_role(None), FieldRole::Other);
}

#[test]
fn form_without_file_is_refused() {
    let f = UploadForm::new();
    assert_eq!(f.filename, "audio");
    let r = f.into_request().unwrap_err();
    assert_eq!(r.status_code(), 400);
    assert_eq!(error_of(&r), (400, "Campo 'file' não encontrado no formulário.".to_string()));
}

#[test]
fn form_with_empty_file_is_refused() {
    let mut f = UploadForm::new();
    f.accept_file(Some("a.wav"), Vec::new());
    let r = f.into_request().unwrap_err();
    assert_eq!(error_of(&r), (400, "Arquivo enviado está vazio.".to_string()));
}

#[test]
fn form_keeps_last_fields() {
    let mut f = UploadForm::new();
    f.accept_file(Some("a.wav"), vec![1]);
    f.accept_language(Some("pt".to_string()));
    f.accept_file(None, vec![2, 3]);
    let q = f.into_request().unwrap();
    assert_eq!(q.filename, "audio.wav");
    assert_eq!(q.audio, vec![2, 3]);
    assert_eq!(q.language.as_deref(), Some("pt"));

    let mut f = UploadForm::new();
    f.accept_language(Some("en".to_string()));
    f.accept_language(None);
    f.accept_file(Some("voz.ogg"), vec![9]);
    let q = f.into_request().unwrap();
    assert_eq!(q.filename, "voz.ogg");
    assert_eq!(q.language, None);
}

#[test]
fn unreadable_file_reply() {
    let r = file_read_failure("stream closed");
    assert_eq!(error_of(&r), (400, "Falha ao ler arquivo: stream closed".to_string()));
}

#[test]
fn upload_replies() {
    let r = upload_reply(Ok("texto".to_string()));
    assert_eq!(r.status_code(), 200);
    assert!(matches!(&r, ApiReply::Completed { transcription } if transcription == "texto"));
    let r = upload_reply(Err(TranscribeError::Whisper(WhisperError::ModelNotFound("m".into()))));
    assert_eq!(r.status_code(), 500);
    assert!(matches!(&r, ApiReply::Failed { error } if error == "Whisper: Arquivo de modelo não encontrado: m"));
}

#[test]
fn transcription_ids() {
    assert_eq!(
        parse_transcription_id("67e55044-10b1-426f-9247-bb680e5fe0c8").ok(),
        Some(0x67e5504410b1426f9247bb680e5fe0c8)
    );
    let r = parse_transcription_id("123").unwrap_err();
    assert_eq!(error_of(&r), (400, "ID inválido.".to_string()));
}

#[test]
fn lookup_replies() {
    let t = Transcription {
        id: 5,
        original_filename: "a.wav".into(),
        status: TranscriptionStatus::Completed,
        content: Some("oi".into()),
    };
    match lookup_reply(Ok(Some(t))) {
        ApiReply::Record(row) => {
            assert_eq!(row.id, "00000000-0000-0000-0000-000000000005");
            assert_eq!(row.filename, "a.wav");
            assert_eq!(row.status, "COMPLETED");
            assert_eq!(row.content.as_deref(), Some("oi"));
        }
        other => panic!("unexpected {:?}", other),
    }
    let r = lookup_reply(Ok(None));
    assert_eq!(error_of(&r), (404, "Transcrição não encontrada.".to_string()));
    let r = lookup_reply(Err("boom".into()));
    assert_eq!(error_of(&r), (500, "boom".to_string()));
}

#[test]
fn listing_replies() {
    let list = vec![
        Transcription::new("a.wav"),
        Transcription {
            id: 1,
            original_filename: "b.mp3".into(),
            status: TranscriptionStatus::Failed,
            content: None,
        },
    ];
    match listing_reply(Ok(list)) {
        ApiReply::Records(rows) => {
            assert_eq!(rows.len(), 2);
            assert_eq!(rows[0].filename, "a.wav");
            assert_eq!(rows[0].status, "PENDING");
            assert_eq!(rows[1].id, "00000000-0000-0000-0000-000000000001");
            assert_eq!(rows[1].status, "FAILED");
            assert_eq!(rows[1].content, None);
        }
        other => panic!("unexpected {:?}", other),
    }
    let r = listing_reply(Err("x".into()));
    assert_eq!(r.status_code(), 500);
}
