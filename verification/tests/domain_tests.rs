use transcription_service::error::{TranscribeError, WhisperError};
use transcription_service::ident::id_text;
use transcription_service::status::TranscriptionStatus;
use transcription_service::transcription::{
    transcription_from_lookup, transcriptions_from_rows, Transcription, TranscriptionRow,
};

fn row(id: &str, filename: &str, status: &str, content: Option<&str>) -> TranscriptionRow {
    TranscriptionRow {
        id: id.to_string(),
        filename: filename.to_string(),
        status: status.to_string(),
        content: content.map(|c| c.to_string()),
    }
}

#[test]
fn status_texts() {
    assert_eq!(TranscriptionStatus::Pending.status_text(), "PENDING");
    assert_eq!(TranscriptionStatus::Processing.status_text(), "PROCESSING");
    assert_eq!(TranscriptionStatus::Completed.status_text(), "COMPLETED");
    assert_eq!(TranscriptionStatus::Failed.status_text(), "FAILED");
}

#[test]
fn status_text_roundtrip() {
    for s in [
        TranscriptionStatus::Pending,
        TranscriptionStatus::Processing,
        TranscriptionStatus::Completed,
        TranscriptionStatus::Failed,
    ] {
        let text = s.status_text();
        assert_eq!(TranscriptionStatus::parse_text(&text), Ok(s));
        assert_eq!(text.parse::<TranscriptionStatus>(), Ok(s));
    }
}

#[test]
fn status_unknown_text_is_error() {
    assert_eq!(
        TranscriptionStatus::parse_text("pending"),
        Err("Status desconhecido: pending".to_string())
    );
    assert_eq!(
        TranscriptionStatus::parse_text(""),
        Err("Status desconhecido: ".to_string())
    );
}

#[test]
fn uuid_text_is_hyphenated_lower_hex() {
    assert_eq!(
        id_text(0xa1a2a3a4b1b2c1c2d1d2d3d4d5d6d7d8),
        "a1a2a3a4-b1b2-c1c2-d1d2-d3d4d5d6d7d8"
    );
    assert_eq!(id_text(0), "00000000-0000-0000-0000-000000000000");
}

#[test]
fn new_transcription_is_pending() {
    let t = Transcription::new("voz.wav");
    assert_eq!(t.original_filename, "voz.wav");
    assert_eq!(t.status, TranscriptionStatus::Pending);
    assert_eq!(t.content, None);
    assert_eq!((t.id >> 76) & 0xF, 4);
    assert_eq!((t.id >> 62) & 0x3, 2);
    let u = Transcription::new("voz.wav");
    assert_ne!(t.id, u.id);
}

#[test]
fn row_encoding() {
    let t = Transcription {
        id: 0x67e5504410b1426f9247bb680e5fe0c8,
        original_filename: "a.mp3".to_string(),
        status: TranscriptionStatus::Completed,
        content: Some("olá".to_string()),
    };
    let r = t.to_row();
    assert_eq!(r.id, "67e55044-10b1-426f-9247-bb680e5fe0c8");
    assert_eq!(r.filename, "a.mp3");
    assert_eq!(r.status, "COMPLETED");
    assert_eq!(r.content.as_deref(), Some("olá"));
}

#[test]
fn row_roundtrip() {
    for status in [TranscriptionStatus::Pending, TranscriptionStatus::Failed] {
        let t = Transcription {
            id: 0x0123456789abcdef0123456789abcdef,
            original_filename: "gravação.ogg".to_string(),
            status,
            content: None,
        };
        let back = Transcription::try_from_row(&t.to_row()).unwrap();
        assert_eq!(back.id, t.id);
        assert_eq!(back.original_filename, t.original_filename);
        assert_eq!(back.status, t.status);
        assert_eq!(back.content, t.content);
    }
}

#[test]
fn row_with_upper_case_or_simple_id_reads() {
    let r = row("67E55044-10B1-426F-9247-BB680E5FE0C8", "x", "PROCESSING", None);
    assert_eq!(Transcription::try_from_row(&r).unwrap().id, 0x67e5504410b1426f9247bb680e5fe0c8);
    let r = row("67e5504410b1426f9247bb680e5fe0c8", "x", "PROCESSING", None);
    assert_eq!(Transcription::try_from_row(&r).unwrap().id, 0x67e5504410b1426f9247bb680e5fe0c8);
}

#[test]
fn row_with_bad_id_or_status_fails() {
    let r = row("not-a-uuid", "x", "PENDING", None);
    assert!(Transcription::try_from_row(&r).is_err());
    let r = row("67e55044-10b1-426f-9247-bb680e5fe0c8", "x", "DONE", None);
    assert_eq!(
        Transcription::try_from_row(&r).unwrap_err(),
        "Status desconhecido: DONE"
    );
}

#[test]
fn rows_are_read_in_order() {
    let rows = vec![
        row("00000000-0000-0000-0000-000000000001", "a", "PENDING", None),
        row("00000000-0000-0000-0000-000000000002", "b", "COMPLETED", Some("oi")),
    ];
    let ts = transcriptions_from_rows(&rows).unwrap();
    assert_eq!(ts.len(), 2);
    assert_eq!(ts[0].id, 1);
    assert_eq!(ts[1].id, 2);
    assert_eq!(ts[1].content.as_deref(), Some("oi"));
    assert!(transcriptions_from_rows(&Vec::new()).unwrap().is_empty());
}

#[test]
fn rows_fail_with_the_first_error() {
    let rows = vec![
        row("00000000-0000-0000-0000-000000000001", "a", "PENDING", None),
        row("00000000-0000-0000-0000-000000000002", "b", "BAD1", None),
        row("00000000-0000-0000-0000-000000000003", "c", "BAD2", None),
    ];
    assert_eq!(
        transcriptions_from_rows(&rows).unwrap_err(),
        "Status desconhecido: BAD1"
    );
}

#[test]
fn lookup_results() {
    assert!(transcription_from_lookup(None).unwrap().is_none());
    let found = transcription_from_lookup(Some(row(
        "00000000-0000-0000-0000-00000000000a",
        "a",
        "FAILED",
        None,
    )))
    .unwrap()
    .unwrap();
    assert_eq!(found.id, 10);
    assert_eq!(found.status, TranscriptionStatus::Failed);
    assert!(transcription_from_lookup(Some(row("zz", "a", "FAILED", None))).is_err());
}

#[test]
fn whisper_error_messages() {
    let cases = [
        (WhisperError::ModelLoad("x".into()), "Falha ao carregar o modelo Whisper: x"),
        (WhisperError::StateCreate("x".into()), "Falha ao criar estado de processamento: x"),
        (WhisperError::Processing("x".into()), "Falha ao processar o áudio: x"),
        (WhisperError::ModelNotFound("m.bin".into()), "Arquivo de modelo não encontrado: m.bin"),
        (WhisperError::InvalidAudio("x".into()), "Formato de áudio inválido ou não suportado: x"),
        (
            WhisperError::FfmpegNotFound("x".into()),
            "ffmpeg não encontrado. Instale o ffmpeg para suporte a MP3/MP4/OGG: x",
        ),
        (WhisperError::Io("x".into()), "Erro de I/O: x"),
    ];
    for (e, m) in cases {
        assert_eq!(e.message(), m);
    }
}

#[test]
fn transcribe_error_messages() {
    assert_eq!(
        TranscribeError::Repository("db".into()).message(),
        "Repositório: db"
    );
    let e: TranscribeError = WhisperError::Io("disk".into()).into();
    assert_eq!(e.message(), "Whisper: Erro de I/O: disk");
}

#[test]
fn lookup_reads_back_a_written_row() {
    let t = Transcription {
        id: 0x11112222333344445555666677778888,
        original_filename: "entrevista.flac".to_string(),
        status: TranscriptionStatus::Completed,
        content: Some("bom dia".to_string()),
    };
    let back = transcription_from_lookup(Some(t.clone().to_row())).unwrap().unwrap();
    assert_eq!(back.id, t.id);
    assert_eq!(back.original_filename, t.original_filename);
    assert_eq!(back.status, t.status);
    assert_eq!(back.content, t.content);
}
