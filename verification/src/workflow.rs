//! The transcription use case as a state machine. Each state waits for the
//! outcome of one piece of outside work (a store write, or decoding and
//! running the model); each step takes that outcome and says what to do
//! next. A run creates a PENDING record, marks it PROCESSING, transcribes,
//! then saves the text (COMPLETED) or marks the record FAILED.
use vstd::prelude::*;
use crate::error::{TranscribeError, WhisperError};
use crate::status::{TranscriptionStatus, lifecycle_step};

verus! {

/// What a run is waiting for.
#[derive(Debug)]
pub enum TranscribeState {
    /// The new record to be created.
    Creating,
    /// The record `id` to be marked PROCESSING.
    MarkingProcessing { id: u128 },
    /// The audio of record `id` to be decoded and transcribed.
    Transcribing { id: u128 },
    /// The text of record `id` to be saved.
    Saving { id: u128, text: String },
    /// The record `id` to be marked FAILED after `error`.
    MarkingFailed { id: u128, error: WhisperError },
    /// Nothing: the run is over.
    Done,
}

/// The outcome of the outside work that a state waits for.
#[derive(Debug)]
pub enum TranscribeEvent {
    /// The record was created with this identifier, or the store failed.
    Created(Result<u128, String>),
    /// The status was written, or the store failed.
    StatusUpdated(Result<(), String>),
    /// The audio gave this text, or decoding or the model failed.
    Transcribed(Result<String, WhisperError>),
    /// The text was saved, or the store failed.
    ResultSaved(Result<(), String>),
    /// The attempt to mark the record FAILED is over (its outcome is ignored).
    FailureMarked,
}

/// The outside work to do next, or the answer of the run.
#[derive(Debug)]
pub enum TranscribeAction {
    /// Create a PENDING record for the uploaded file.
    CreateRecord,
    /// Write `status` into record `id`.
    UpdateStatus { id: u128, status: TranscriptionStatus },
    /// Resolve the model, decode the audio and run the model on it.
    Transcribe,
    /// Write `text` into record `id` and mark it COMPLETED.
    SaveResult { id: u128, text: String },
    /// Mark record `id` FAILED.
    MarkFailed { id: u128 },
    /// The run is over with this answer.
    Finish(Result<String, TranscribeError>),
}

/// Whether `state` waits for an outcome of the kind of `event`.
pub open spec fn expects(state: TranscribeState, event: TranscribeEvent) -> bool {
    match state {
        TranscribeState::Creating => event is Created,
        TranscribeState::MarkingProcessing { .. } => event is StatusUpdated,
        TranscribeState::Transcribing { .. } => event is Transcribed,
        TranscribeState::Saving { .. } => event is ResultSaved,
        TranscribeState::MarkingFailed { .. } => event is FailureMarked,
        TranscribeState::Done => false,
    }
}

/// The first state and action of a run.
pub open spec fn start_spec() -> (TranscribeState, TranscribeAction) {
    (TranscribeState::Creating, TranscribeAction::CreateRecord)
}

/// One step (for an event that the state expects): the next state and action after `event` in `state`. A store
/// failure while creating, marking PROCESSING or saving ends the run with a
/// repository error; a decoding or model failure marks the record FAILED and
/// then ends the run with that error; a saved text ends the run with it.
pub open spec fn step_spec(state: TranscribeState, event: TranscribeEvent) -> (
    TranscribeState,
    TranscribeAction,
) {
    match (state, event) {
        (TranscribeState::Creating, TranscribeEvent::Created(Ok(id))) => (
            TranscribeState::MarkingProcessing { id },
            TranscribeAction::UpdateStatus { id, status: TranscriptionStatus::Processing },
        ),
        (TranscribeState::MarkingProcessing { id }, TranscribeEvent::StatusUpdated(Ok(()))) => (
            TranscribeState::Transcribing { id },
            TranscribeAction::Transcribe,
        ),
        (TranscribeState::Transcribing { id }, TranscribeEvent::Transcribed(Ok(text))) => (
            TranscribeState::Saving { id, text },
            TranscribeAction::SaveResult { id, text },
        ),
        (TranscribeState::Transcribing { id }, TranscribeEvent::Transcribed(Err(error))) => (
            TranscribeState::MarkingFailed { id, error },
            TranscribeAction::MarkFailed { id },
        ),
        (TranscribeState::Saving { id, text }, TranscribeEvent::ResultSaved(Ok(()))) => (
            TranscribeState::Done,
            TranscribeAction::Finish(Ok(text)),
        ),
        (TranscribeState::MarkingFailed { id, error }, TranscribeEvent::FailureMarked) => (
            TranscribeState::Done,
            TranscribeAction::Finish(Err(TranscribeError::Whisper(error))),
        ),
        (TranscribeState::Creating, TranscribeEvent::Created(Err(e))) => (
            TranscribeState::Done,
            TranscribeAction::Finish(Err(TranscribeError::Repository(e))),
        ),
        (TranscribeState::MarkingProcessing { .. }, TranscribeEvent::StatusUpdated(Err(e))) => (
            TranscribeState::Done,
            TranscribeAction::Finish(Err(TranscribeError::Repository(e))),
        ),
        (TranscribeState::Saving { .. }, TranscribeEvent::ResultSaved(Err(e))) => (
            TranscribeState::Done,
            TranscribeAction::Finish(Err(TranscribeError::Repository(e))),
        ),
        _ => vstd::pervasive::arbitrary(),
    }
}

impl TranscribeState {
    /// The first state and action of a run: create the record.
    pub fn start() -> (r: (TranscribeState, TranscribeAction))
        ensures
            r == start_spec(),
    {
        (TranscribeState::Creating, TranscribeAction::CreateRecord)
    }

    /// Whether this state waits for an outcome of the kind of `event`.
    pub fn accepts(&self, event: &TranscribeEvent) -> (r: bool)
        ensures
            r == expects(*self, *event),
    {
        match self {
            TranscribeState::Creating => matches!(event, TranscribeEvent::Created(_)),
            TranscribeState::MarkingProcessing { .. } => matches!(event, TranscribeEvent::StatusUpdated(_)),
            TranscribeState::Transcribing { .. } => matches!(event, TranscribeEvent::Transcribed(_)),
            TranscribeState::Saving { .. } => matches!(event, TranscribeEvent::ResultSaved(_)),
            TranscribeState::MarkingFailed { .. } => matches!(event, TranscribeEvent::FailureMarked),
            TranscribeState::Done => false,
        }
    }

    /// One step of the run; see `step_spec`.
    pub fn step(self, event: TranscribeEvent) -> (r: (TranscribeState, TranscribeAction))
        requires
            expects(self, event),
        ensures
            r == step_spec(self, event),
    {
        match self {
            TranscribeState::Creating => match event {
                TranscribeEvent::Created(Ok(id)) => (
                    TranscribeState::MarkingProcessing { id },
                    TranscribeAction::UpdateStatus { id, status: TranscriptionStatus::Processing },
                ),
                TranscribeEvent::Created(Err(e)) => (
                    TranscribeState::Done,
                    TranscribeAction::Finish(Err(TranscribeError::Repository(e))),
                ),
                _ => unreached(),
            },
            TranscribeState::MarkingProcessing { id } => match event {
                TranscribeEvent::StatusUpdated(Ok(())) => (
                    TranscribeState::Transcribing { id },
                    TranscribeAction::Transcribe,
                ),
                TranscribeEvent::StatusUpdated(Err(e)) => (
                    TranscribeState::Done,
                    TranscribeAction::Finish(Err(TranscribeError::Repository(e))),
                ),
                _ => unreached(),
            },
            TranscribeState::Transcribing { id } => match event {
                TranscribeEvent::Transcribed(Ok(text)) => {
                    let saved = text.clone();
                    (TranscribeState::Saving { id, text }, TranscribeAction::SaveResult { id, text: saved })
                },
                TranscribeEvent::Transcribed(Err(error)) => (
                    TranscribeState::MarkingFailed { id, error },
                    TranscribeAction::MarkFailed { id },
                ),
                _ => unreached(),
            },
            TranscribeState::Saving { id, text } => match event {
                TranscribeEvent::ResultSaved(Ok(())) => (
                    TranscribeState::Done,
                    TranscribeAction::Finish(Ok(text)),
                ),
                TranscribeEvent::ResultSaved(Err(e)) => (
                    TranscribeState::Done,
                    TranscribeAction::Finish(Err(TranscribeError::Repository(e))),
                ),
                _ => unreached(),
            },
            TranscribeState::MarkingFailed { id, error } => (
                TranscribeState::Done,
                TranscribeAction::Finish(Err(TranscribeError::Whisper(error))),
            ),
            TranscribeState::Done => unreached(),
        }
    }
}

/// The run from `state` through `events`: each expected event takes one
/// step; the run stops at the first event that the state does not expect.
/// Gives the last state and the actions, in order.
pub open spec fn run(state: TranscribeState, events: Seq<TranscribeEvent>) -> (
    TranscribeState,
    Seq<TranscribeAction>,
)
    decreases events.len(),
{
    if events.len() == 0 || !expects(state, events[0]) {
        (state, Seq::empty())
    } else {
        let (next, action) = step_spec(state, events[0]);
        let (last, actions) = run(next, events.drop_first());
        (last, seq![action] + actions)
    }
}

/// The run from the start through `events`, its first action included.
pub open spec fn run_from_start(events: Seq<TranscribeEvent>) -> (
    TranscribeState,
    Seq<TranscribeAction>,
) {
    let (first, action) = start_spec();
    let (last, actions) = run(first, events);
    (last, seq![action] + actions)
}

/// The status that an action asks the store to write into the record:
/// creating writes PENDING, saving the text writes COMPLETED.
pub open spec fn written_status(a: TranscribeAction) -> Option<TranscriptionStatus> {
    match a {
        TranscribeAction::CreateRecord => Some(TranscriptionStatus::Pending),
        TranscribeAction::UpdateStatus { status, .. } => Some(status),
        TranscribeAction::SaveResult { .. } => Some(TranscriptionStatus::Completed),
        TranscribeAction::MarkFailed { .. } => Some(TranscriptionStatus::Failed),
        _ => None,
    }
}

/// The statuses that a sequence of actions writes, in order.
pub open spec fn writes(actions: Seq<TranscribeAction>) -> Seq<TranscriptionStatus>
    decreases actions.len(),
{
    if actions.len() == 0 {
        Seq::empty()
    } else {
        match written_status(actions[0]) {
            Some(w) => seq![w] + writes(actions.drop_first()),
            None => writes(actions.drop_first()),
        }
    }
}

/// The statuses a record has gone through up to a state of the run (for a
/// state other than `Done`).
pub open spec fn written_before(state: TranscribeState) -> Seq<TranscriptionStatus> {
    match state {
        TranscribeState::Creating => seq![TranscriptionStatus::Pending],
        TranscribeState::MarkingProcessing { .. } => seq![
            TranscriptionStatus::Pending,
            TranscriptionStatus::Processing,
        ],
        TranscribeState::Transcribing { .. } => seq![
            TranscriptionStatus::Pending,
            TranscriptionStatus::Processing,
        ],
        TranscribeState::Saving { .. } => seq![
            TranscriptionStatus::Pending,
            TranscriptionStatus::Processing,
            TranscriptionStatus::Completed,
        ],
        TranscribeState::MarkingFailed { .. } => seq![
            TranscriptionStatus::Pending,
            TranscriptionStatus::Processing,
            TranscriptionStatus::Failed,
        ],
        TranscribeState::Done => Seq::empty(),
    }
}

/// A path through the lifecycle from its start: PENDING, then PROCESSING,
/// then COMPLETED or FAILED, each status a lifecycle step from the one before.
pub open spec fn lifecycle_path(ws: Seq<TranscriptionStatus>) -> bool {
    &&& 1 <= ws.len() <= 3
    &&& ws[0] == TranscriptionStatus::Pending
    &&& forall|i: int| 0 <= i < ws.len() - 1 ==> lifecycle_step(#[trigger] ws[i], ws[i + 1])
}

proof fn lemma_writes_cons(a: TranscribeAction, rest: Seq<TranscribeAction>)
    ensures
        writes(seq![a] + rest) == match written_status(a) {
            Some(w) => seq![w] + writes(rest),
            None => writes(rest),
        },
{
    assert((seq![a] + rest)[0] == a);
    assert((seq![a] + rest).drop_first() =~= rest);
}

proof fn lemma_run_writes(state: TranscribeState, events: Seq<TranscribeEvent>)
    requires
        !(state is Done),
    ensures
        lifecycle_path(written_before(state) + writes(run(state, events).1)),
    decreases events.len(),
{
    if events.len() == 0 || !expects(state, events[0]) {
        assert(writes(run(state, events).1) =~= Seq::<TranscriptionStatus>::empty());
        assert(written_before(state) + writes(run(state, events).1) =~= written_before(state));
    } else {
        let (next, action) = step_spec(state, events[0]);
        let rest = events.drop_first();
        lemma_writes_cons(action, run(next, rest).1);
        if next is Done {
            assert(run(next, rest).1 =~= Seq::<TranscribeAction>::empty());
            assert(writes(run(next, rest).1) =~= Seq::<TranscriptionStatus>::empty());
            assert(written_before(state) + writes(run(state, events).1) =~= written_before(state));
        } else {
            lemma_run_writes(next, rest);
            match written_status(action) {
                Some(w) => {
                    assert(written_before(state) + seq![w] =~= written_before(next));
                    assert(written_before(state) + writes(run(state, events).1) =~= written_before(
                        next,
                    ) + writes(run(next, rest).1));
                },
                None => {
                    assert(written_before(state) =~= written_before(next));
                },
            }
        }
    }
}

/// Every run asks the store to write statuses along one lifecycle path:
/// PENDING when the record is created, then PROCESSING, then COMPLETED or
/// FAILED; no run writes a status that does not follow the one before it.
pub proof fn lemma_run_follows_lifecycle(events: Seq<TranscribeEvent>)
    ensures
        lifecycle_path(writes(run_from_start(events).1)),
{
    lemma_writes_cons(TranscribeAction::CreateRecord, run(TranscribeState::Creating, events).1);
    lemma_run_writes(TranscribeState::Creating, events);
    assert(seq![TranscriptionStatus::Pending] + writes(run(TranscribeState::Creating, events).1)
        =~= written_before(TranscribeState::Creating) + writes(
        run(TranscribeState::Creating, events).1,
    ));
}

/// The answer of a run, once its last action is `Finish`.
pub open spec fn answer(actions: Seq<TranscribeAction>) -> Option<Result<String, TranscribeError>> {
    if actions.len() > 0 && actions.last() is Finish {
        Some(actions.last()->Finish_0)
    } else {
        None
    }
}

/// The events of a run that succeeds with `text`: the record is created,
/// marked PROCESSING, the model gives `text`, and the text is saved.
pub open spec fn completed_events(events: Seq<TranscribeEvent>, text: String) -> bool {
    &&& events.len() >= 4
    &&& events[0] matches TranscribeEvent::Created(Ok(_))
    &&& events[1] matches TranscribeEvent::StatusUpdated(Ok(_))
    &&& events[2] == TranscribeEvent::Transcribed(Ok(text))
    &&& events[3] matches TranscribeEvent::ResultSaved(Ok(_))
}

/// The events of a run whose decoding or model fails with `error`: the
/// record is created and marked PROCESSING, the model fails, and the attempt
/// to mark the record FAILED is over.
pub open spec fn failed_events(events: Seq<TranscribeEvent>, error: WhisperError) -> bool {
    &&& events.len() >= 4
    &&& events[0] matches TranscribeEvent::Created(Ok(_))
    &&& events[1] matches TranscribeEvent::StatusUpdated(Ok(_))
    &&& events[2] == TranscribeEvent::Transcribed(Err(error))
    &&& events[3] == TranscribeEvent::FailureMarked
}

/// The events of a run where the store fails with `m`: creating the
/// record, marking it PROCESSING, or saving its text.
pub open spec fn store_failure_events(events: Seq<TranscribeEvent>, m: String) -> bool {
    ||| events.len() >= 1 && events[0] == TranscribeEvent::Created(Err(m))
    ||| events.len() >= 2 && (events[0] matches TranscribeEvent::Created(Ok(_))) && events[1]
        == TranscribeEvent::StatusUpdated(Err(m))
    ||| events.len() >= 4 && (events[0] matches TranscribeEvent::Created(Ok(_))) && (events[1] matches TranscribeEvent::StatusUpdated(Ok(_))) && (events[2] matches TranscribeEvent::Transcribed(Ok(_)))
        && events[3] == TranscribeEvent::ResultSaved(Err(m))
}

proof fn lemma_run_one(state: TranscribeState, events: Seq<TranscribeEvent>)
    requires
        events.len() > 0,
        expects(state, events[0]),
    ensures
        run(state, events).1 == seq![step_spec(state, events[0]).1] + run(
            step_spec(state, events[0]).0,
            events.drop_first(),
        ).1,
{
}

proof fn lemma_run_done(events: Seq<TranscribeEvent>)
    ensures
        run(TranscribeState::Done, events).1 == Seq::<TranscribeAction>::empty(),
{
}

/// A run answers `Ok(text)` exactly when the record was created, marked
/// PROCESSING, the model gave `text` and the store saved it; the run then
/// asked the store to save that very text into the created record before it
/// answered.
pub proof fn lemma_completed_run(events: Seq<TranscribeEvent>, text: String)
    ensures
        answer(run_from_start(events).1) == Some(Ok::<String, TranscribeError>(text))
            <==> completed_events(events, text),
        completed_events(events, text) ==> run_from_start(events).1 == seq![
            TranscribeAction::CreateRecord,
            TranscribeAction::UpdateStatus {
                id: events[0]->Created_0->Ok_0,
                status: TranscriptionStatus::Processing,
            },
            TranscribeAction::Transcribe,
            TranscribeAction::SaveResult { id: events[0]->Created_0->Ok_0, text },
            TranscribeAction::Finish(Ok(text)),
        ],
{
    lemma_run_shape(events);
    lemma_answers(events, text, arbitrary(), arbitrary());
}

/// A run answers with the model error `error` exactly when the record was
/// created and marked PROCESSING and the model failed with `error`; the run
/// then asked the store to mark the record FAILED before it answered.
pub proof fn lemma_failed_run(events: Seq<TranscribeEvent>, error: WhisperError)
    ensures
        answer(run_from_start(events).1) == Some(
            Err::<String, TranscribeError>(TranscribeError::Whisper(error)),
        ) <==> failed_events(events, error),
        failed_events(events, error) ==> run_from_start(events).1 == seq![
            TranscribeAction::CreateRecord,
            TranscribeAction::UpdateStatus {
                id: events[0]->Created_0->Ok_0,
                status: TranscriptionStatus::Processing,
            },
            TranscribeAction::Transcribe,
            TranscribeAction::MarkFailed { id: events[0]->Created_0->Ok_0 },
            TranscribeAction::Finish(Err(TranscribeError::Whisper(error))),
        ],
{
    lemma_run_shape(events);
    lemma_answers(events, arbitrary(), error, arbitrary());
}

/// A run answers with the store error `m` exactly when creating the record,
/// marking it PROCESSING, or saving its text failed with `m`; the run asks
/// for nothing after that failure but to answer.
pub proof fn lemma_store_failure_run(events: Seq<TranscribeEvent>, m: String)
    ensures
        answer(run_from_start(events).1) == Some(
            Err::<String, TranscribeError>(TranscribeError::Repository(m)),
        ) <==> store_failure_events(events, m),
{
    lemma_run_shape(events);
    lemma_answers(events, arbitrary(), arbitrary(), m);
}

/// A run answers at most once, and its answer is its last action.
pub proof fn lemma_answer_is_last(events: Seq<TranscribeEvent>)
    ensures
        forall|i: int|
            0 <= i < run_from_start(events).1.len() && (#[trigger] run_from_start(events).1[i]) is Finish
                ==> i == run_from_start(events).1.len() - 1,
        run_from_start(events).1.len() <= 5,
{
    lemma_run_shape(events);
}

/// The actions of the run through `events`, written out case by case.
pub open spec fn run_actions(events: Seq<TranscribeEvent>) -> Seq<TranscribeAction> {
    let a0 = TranscribeAction::CreateRecord;
    if events.len() == 0 {
        seq![a0]
    } else {
        match events[0] {
            TranscribeEvent::Created(Err(e)) => seq![
                a0,
                TranscribeAction::Finish(Err(TranscribeError::Repository(e))),
            ],
            TranscribeEvent::Created(Ok(id)) => {
                let a1 = TranscribeAction::UpdateStatus { id, status: TranscriptionStatus::Processing };
                if events.len() == 1 {
                    seq![a0, a1]
                } else {
                    match events[1] {
                        TranscribeEvent::StatusUpdated(Err(e)) => seq![
                            a0,
                            a1,
                            TranscribeAction::Finish(Err(TranscribeError::Repository(e))),
                        ],
                        TranscribeEvent::StatusUpdated(Ok(())) => {
                            let a2 = TranscribeAction::Transcribe;
                            if events.len() == 2 {
                                seq![a0, a1, a2]
                            } else {
                                match events[2] {
                                    TranscribeEvent::Transcribed(Ok(t)) => {
                                        let a3 = TranscribeAction::SaveResult { id, text: t };
                                        if events.len() == 3 {
                                            seq![a0, a1, a2, a3]
                                        } else {
                                            match events[3] {
                                                TranscribeEvent::ResultSaved(Ok(())) => seq![
                                                    a0,
                                                    a1,
                                                    a2,
                                                    a3,
                                                    TranscribeAction::Finish(Ok(t)),
                                                ],
                                                TranscribeEvent::ResultSaved(Err(e)) => seq![
                                                    a0,
                                                    a1,
                                                    a2,
                                                    a3,
                                                    TranscribeAction::Finish(
                                                        Err(TranscribeError::Repository(e)),
                                                    ),
                                                ],
                                                _ => seq![a0, a1, a2, a3],
                                            }
                                        }
                                    },
                                    TranscribeEvent::Transcribed(Err(e)) => {
                                        let a3 = TranscribeAction::MarkFailed { id };
                                        if events.len() == 3 {
                                            seq![a0, a1, a2, a3]
                                        } else {
                                            match events[3] {
                                                TranscribeEvent::FailureMarked => seq![
                                                    a0,
                                                    a1,
                                                    a2,
                                                    a3,
                                                    TranscribeAction::Finish(
                                                        Err(TranscribeError::Whisper(e)),
                                                    ),
                                                ],
                                                _ => seq![a0, a1, a2, a3],
                                            }
                                        }
                                    },
                                    _ => seq![a0, a1, a2],
                                }
                            }
                        },
                        _ => seq![a0, a1],
                    }
                }
            },
            _ => seq![a0],
        }
    }
}

/// The actions of every run, case by case: a run from the start goes
/// through at most four outside results and stops at the first one that its
/// state does not wait for.
pub proof fn lemma_run_shape(events: Seq<TranscribeEvent>)
    ensures
        run_from_start(events).1 == run_actions(events),
{
    let s0 = TranscribeState::Creating;
    if events.len() == 0 || !expects(s0, events[0]) {
        assert(run_from_start(events).1 =~= run_actions(events));
        return;
    }
    lemma_run_one(s0, events);
    let e1 = events.drop_first();
    let s1 = step_spec(s0, events[0]).0;
    if s1 is Done {
        lemma_run_done(e1);
        assert(run_from_start(events).1 =~= run_actions(events));
        return;
    }
    if e1.len() == 0 || !expects(s1, e1[0]) {
        assert(run_from_start(events).1 =~= run_actions(events));
        return;
    }
    lemma_run_one(s1, e1);
    let e2 = e1.drop_first();
    let s2 = step_spec(s1, e1[0]).0;
    assert(e1[0] == events[1]);
    if s2 is Done {
        lemma_run_done(e2);
        assert(run_from_start(events).1 =~= run_actions(events));
        return;
    }
    if e2.len() == 0 || !expects(s2, e2[0]) {
        assert(run_from_start(events).1 =~= run_actions(events));
        return;
    }
    lemma_run_one(s2, e2);
    let e3 = e2.drop_first();
    let s3 = step_spec(s2, e2[0]).0;
    assert(e2[0] == events[2]);
    if e3.len() == 0 || !expects(s3, e3[0]) {
        assert(run_from_start(events).1 =~= run_actions(events));
        return;
    }
    lemma_run_one(s3, e3);
    let e4 = e3.drop_first();
    let s4 = step_spec(s3, e3[0]).0;
    assert(e3[0] == events[3]);
    assert(s4 is Done);
    lemma_run_done(e4);
    assert(run_from_start(events).1 =~= run_actions(events));
}

proof fn lemma_answers(events: Seq<TranscribeEvent>, text: String, error: WhisperError, m: String)
    ensures
        answer(run_actions(events)) == Some(Ok::<String, TranscribeError>(text))
            <==> completed_events(events, text),
        answer(run_actions(events)) == Some(
            Err::<String, TranscribeError>(TranscribeError::Whisper(error)),
        ) <==> failed_events(events, error),
        answer(run_actions(events)) == Some(
            Err::<String, TranscribeError>(TranscribeError::Repository(m)),
        ) <==> store_failure_events(events, m),
{
    let acts = run_actions(events);
    if events.len() == 0 {
        assert(answer(acts) is None);
        return;
    }
    match events[0] {
        TranscribeEvent::Created(Err(e)) => {
            assert(acts.last() == TranscribeAction::Finish(Err(TranscribeError::Repository(e))));
            assert(answer(acts) == Some(Err::<String, TranscribeError>(TranscribeError::Repository(e))));
        },
        TranscribeEvent::Created(Ok(id)) => {
            if events.len() == 1 {
                assert(answer(acts) is None);
                return;
            }
            match events[1] {
                TranscribeEvent::StatusUpdated(Err(e)) => {
                    assert(acts.last() == TranscribeAction::Finish(Err(TranscribeError::Repository(e))));
                    assert(answer(acts) == Some(Err::<String, TranscribeError>(TranscribeError::Repository(e))));
                },
                TranscribeEvent::StatusUpdated(Ok(())) => {
                    if events.len() == 2 {
                        assert(answer(acts) is None);
                        return;
                    }
                    match events[2] {
                        TranscribeEvent::Transcribed(Ok(t)) => {
                            if events.len() == 3 {
                                assert(answer(acts) is None);
                                return;
                            }
                            match events[3] {
                                TranscribeEvent::ResultSaved(Ok(())) => {
                                    assert(acts.last() == TranscribeAction::Finish(Ok(t)));
                                    assert(answer(acts) == Some(Ok::<String, TranscribeError>(t)));
                                },
                                TranscribeEvent::ResultSaved(Err(e)) => {
                                    assert(acts.last() == TranscribeAction::Finish(
                                        Err(TranscribeError::Repository(e)),
                                    ));
                                },
                                _ => {
                                    assert(answer(acts) is None);
                                },
                            }
                        },
                        TranscribeEvent::Transcribed(Err(e)) => {
                            if events.len() == 3 {
                                assert(answer(acts) is None);
                                return;
                            }
                            match events[3] {
                                TranscribeEvent::FailureMarked => {
                                    assert(acts.last() == TranscribeAction::Finish(
                                        Err(TranscribeError::Whisper(e)),
                                    ));
                                },
                                _ => {
                                    assert(answer(acts) is None);
                                },
                            }
                        },
                        _ => {
                            assert(answer(acts) is None);
                        },
                    }
                },
                _ => {
                    assert(answer(acts) is None);
                },
            }
        },
        _ => {
            assert(answer(acts) is None);
        },
    }
}

} // verus!
