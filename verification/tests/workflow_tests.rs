use transcription_service::error::{TranscribeError, WhisperError};
use transcription_service::status::TranscriptionStatus;
use transcription_service::workflow::{TranscribeAction, TranscribeEvent, TranscribeState};

/// Drives a run through the given outcomes; returns every action.
fn drive(events: Vec<TranscribeEvent>) -> Vec<TranscribeAction> {
    let (mut state, first) = TranscribeState::start();
    let mut actions = vec![first];
    for e in events {
        if !state.accepts(&e) {
            break;
        }
        let (next, action) = state.step(e);
        state = next;
        actions.push(action);
    }
    actions
}

fn written(actions: &[TranscribeAction]) -> Vec<TranscriptionStatus> {
    actions
        .iter()
        .filter_map(|a| match a {
            TranscribeAction::CreateRecord => Some(TranscriptionStatus::Pending),
            TranscribeAction::UpdateStatus { status, .. } => Some(*status),
            TranscribeAction::SaveResult { .. } => Some(TranscriptionStatus::Completed),
            TranscribeAction::MarkFailed { .. } => Some(TranscriptionStatus::Failed),
            _ => None,
        })
        .collect()
}

#[test]
fn successful_run() {
    let actions = drive(vec![
        TranscribeEvent::Created(Ok(7)),
        TranscribeEvent::StatusUpdated(Ok(())),
        TranscribeEvent::Transcribed(Ok("olá mundo".to_string())),
        TranscribeEvent::ResultSaved(Ok(())),
    ]);
    assert_eq!(actions.len(), 5);
    assert!(matches!(actions[0], TranscribeAction::CreateRecord));
    assert!(matches!(
        actions[1],
        TranscribeAction::UpdateStatus { id: 7, status: TranscriptionStatus::Processing }
    ));
    assert!(matches!(actions[2], TranscribeAction::Transcribe));
    match &actions[3] {
        TranscribeAction::SaveResult { id, text } => {
            assert_eq!(*id, 7);
            assert_eq!(text, "olá mundo");
        }
        other => panic!("unexpected {:?}", other),
    }
    match &actions[4] {
        TranscribeAction::Finish(Ok(text)) => assert_eq!(text, "olá mundo"),
        other => panic!("unexpected {:?}", other),
    }
    assert_eq!(
        written(&actions),
        vec![
            TranscriptionStatus::Pending,
            TranscriptionStatus::Processing,
            TranscriptionStatus::Completed
        ]
    );
}

#[test]
fn model_failure_marks_record_failed() {
    let actions = drive(vec![
        TranscribeEvent::Created(Ok(9)),
        TranscribeEvent::StatusUpdated(Ok(())),
        TranscribeEvent::Transcribed(Err(WhisperError::InvalidAudio("x".to_string()))),
        TranscribeEvent::FailureMarked,
    ]);
    assert_eq!(actions.len(), 5);
    assert!(matches!(actions[3], TranscribeAction::MarkFailed { id: 9 }));
    match &actions[4] {
        TranscribeAction::Finish(Err(TranscribeError::Whisper(WhisperError::InvalidAudio(d)))) => {
            assert_eq!(d, "x")
        }
        other => panic!("unexpected {:?}", other),
    }
    assert_eq!(
        written(&actions),
        vec![
            TranscriptionStatus::Pending,
            TranscriptionStatus::Processing,
            TranscriptionStatus::Failed
        ]
    );
}

#[test]
fn store_failures_end_the_run() {
    let actions = drive(vec![TranscribeEvent::Created(Err("db down".to_string()))]);
    assert_eq!(actions.len(), 2);
    match &actions[1] {
        TranscribeAction::Finish(Err(TranscribeError::Repository(m))) => assert_eq!(m, "db down"),
        other => panic!("unexpected {:?}", other),
    }

    let actions = drive(vec![
        TranscribeEvent::Created(Ok(1)),
        TranscribeEvent::StatusUpdated(Err("locked".to_string())),
    ]);
    assert_eq!(actions.len(), 3);
    assert!(matches!(&actions[2], TranscribeAction::Finish(Err(TranscribeError::Repository(m))) if m == "locked"));

    let actions = drive(vec![
        TranscribeEvent::Created(Ok(1)),
        TranscribeEvent::StatusUpdated(Ok(())),
        TranscribeEvent::Transcribed(Ok("t".to_string())),
        TranscribeEvent::ResultSaved(Err("full".to_string())),
    ]);
    assert_eq!(actions.len(), 5);
    assert!(matches!(&actions[4], TranscribeAction::Finish(Err(TranscribeError::Repository(m))) if m == "full"));
}

#[test]
fn finished_run_takes_no_more_events() {
    let (state, _) = TranscribeState::start();
    let (state, _) = state.step(TranscribeEvent::Created(Err("e".to_string())));
    assert!(matches!(state, TranscribeState::Done));
    assert!(!state.accepts(&TranscribeEvent::FailureMarked));
    assert!(!state.accepts(&TranscribeEvent::Created(Ok(1))));
}

#[test]
fn states_accept_only_their_outcome() {
    let (state, _) = TranscribeState::start();
    assert!(state.accepts(&TranscribeEvent::Created(Ok(1))));
    assert!(!state.accepts(&TranscribeEvent::StatusUpdated(Ok(()))));
    let t = TranscribeState::Transcribing { id: 3 };
    assert!(t.accepts(&TranscribeEvent::Transcribed(Ok(String::new()))));
    assert!(!t.accepts(&TranscribeEvent::ResultSaved(Ok(()))));
}
