use transcription_service::convert::{check_ffmpeg_status, ffmpeg_arguments, ffmpeg_file_names};
use transcription_service::error::WhisperError;
use transcription_service::store::sqlite_url;
use transcription_service::transcriber::{
    check_model_present, choose_model_path, join_segments, whisper_thread_count,
};

#[test]
fn segments_are_trimmed_and_joined() {
    let segs = vec![
        "  Pronto,".to_string(),
        "".to_string(),
        " \t ".to_string(),
        " pode falar,\n".to_string(),
        "tá gravando.  ".to_string(),
    ];
    assert_eq!(join_segments(&segs), "Pronto, pode falar, tá gravando.");
}

#[test]
fn no_segments_give_empty_text() {
    assert_eq!(join_segments(&Vec::new()), "");
    assert_eq!(join_segments(&vec!["   ".to_string(), "\u{3000}".to_string()]), "");
}

#[test]
fn unicode_white_space_is_trimmed() {
    let segs = vec!["\u{00A0}um\u{2003}".to_string(), "\u{2028}dois".to_string()];
    assert_eq!(join_segments(&segs), "um dois");
}

#[test]
fn thread_counts() {
    assert_eq!(whisper_thread_count(Some(1)), 1);
    assert_eq!(whisper_thread_count(Some(3)), 3);
    assert_eq!(whisper_thread_count(Some(4)), 4);
    assert_eq!(whisper_thread_count(Some(64)), 4);
    assert_eq!(whisper_thread_count(None), 2);
}

#[test]
fn model_path_preference() {
    assert_eq!(
        choose_model_path(Some("x.bin"), Some("env.bin".into()), Some("exe.bin".into())),
        "x.bin"
    );
    assert_eq!(
        choose_model_path(None, Some("env.bin".into()), Some("exe.bin".into())),
        "env.bin"
    );
    assert_eq!(choose_model_path(None, None, Some("exe.bin".into())), "exe.bin");
    assert_eq!(choose_model_path(None, None, None), "assets/ggml-base.bin");
}

#[test]
fn missing_model_is_reported() {
    assert!(check_model_present("m.bin", true).is_ok());
    match check_model_present("m.bin", false) {
        Err(WhisperError::ModelNotFound(p)) => assert_eq!(p, "m.bin"),
        other => panic!("unexpected {:?}", other),
    }
}

#[test]
fn ffmpeg_command() {
    let (input, output) = ffmpeg_file_names("mp3");
    assert_eq!(input, "transcritor_input.mp3");
    assert_eq!(output, "transcritor_output.wav");
    assert_eq!(
        ffmpeg_arguments("/tmp/in.mp3", "/tmp/out.wav"),
        vec![
            "-y", "-i", "/tmp/in.mp3", "-ar", "16000", "-ac", "1", "-c:a", "pcm_s16le",
            "/tmp/out.wav"
        ]
    );
    assert!(check_ffmpeg_status(true).is_ok());
    match check_ffmpeg_status(false) {
        Err(WhisperError::InvalidAudio(d)) => {
            assert_eq!(d, "ffmpeg falhou ao converter o arquivo de áudio")
        }
        other => panic!("unexpected {:?}", other),
    }
}

#[test]
fn sqlite_urls() {
    assert_eq!(
        sqlite_url("C:\\app\\bin\\transcriptions.db"),
        "sqlite://C:/app/bin/transcriptions.db?mode=rwc"
    );
    assert_eq!(
        sqlite_url("/srv/transcriptions.db"),
        "sqlite:///srv/transcriptions.db?mode=rwc"
    );
    assert_eq!(sqlite_url(""), "sqlite://?mode=rwc");
}
