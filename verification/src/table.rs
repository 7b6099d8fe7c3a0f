//! What the store's writes do to the `transcriptions` table, and what a
//! lookup reads back. Rows are keyed by the text of their identifier, as the
//! store's statements find them (`WHERE id = ?` with `id_text`).
use vstd::prelude::*;
use crate::ident::uuid_text;
use crate::status::{TranscriptionStatus, status_text};
use crate::transcription::{RowModel, TranscriptionModel, encode_row};
use crate::workflow::{
    TranscribeAction, TranscribeEvent, completed_events, failed_events, lemma_completed_run,
    lemma_failed_run, run_from_start,
};

verus! {

/// The rows of the table, by the text of their identifier.
pub type Table = Map<Seq<char>, RowModel>;

/// `INSERT INTO transcriptions (id, filename, status) VALUES (?, ?, ?)` with
/// the `id`, `filename` and `status` of the row of `t`; the content is NULL.
pub open spec fn table_after_create(table: Table, t: TranscriptionModel) -> Table {
    let row = encode_row(t);
    table.insert(
        row.id,
        RowModel { id: row.id, filename: row.filename, status: row.status, content: None },
    )
}

/// `UPDATE transcriptions SET status = ? WHERE id = ?`: the status text of
/// the row of `id`, if there is one, becomes that of `status`.
pub open spec fn table_after_status(table: Table, id: u128, status: TranscriptionStatus) -> Table {
    let key = uuid_text(id);
    if table.dom().contains(key) {
        let row = table[key];
        table.insert(
            key,
            RowModel {
                id: row.id,
                filename: row.filename,
                status: status_text(status),
                content: row.content,
            },
        )
    } else {
        table
    }
}

/// `UPDATE transcriptions SET status = ?, content = ? WHERE id = ?` with
/// COMPLETED and `text`: the row of `id`, if there is one, holds the text and
/// is COMPLETED.
pub open spec fn table_after_result(table: Table, id: u128, text: Seq<char>) -> Table {
    let key = uuid_text(id);
    if table.dom().contains(key) {
        let row = table[key];
        table.insert(
            key,
            RowModel {
                id: row.id,
                filename: row.filename,
                status: status_text(TranscriptionStatus::Completed),
                content: Some(text),
            },
        )
    } else {
        table
    }
}

/// `SELECT id, filename, status, content FROM transcriptions WHERE id = ?`
/// with the text of `id`.
pub open spec fn row_for_id(table: Table, id: u128) -> Option<RowModel> {
    if table.dom().contains(uuid_text(id)) {
        Some(table[uuid_text(id)])
    } else {
        None
    }
}

/// The table after the store write that an action of a run asks for, when
/// that write succeeds: creating inserts a PENDING record of `filename` with
/// the identifier `created`; marking FAILED sets the status FAILED.
pub open spec fn table_after_action(
    table: Table,
    filename: Seq<char>,
    created: u128,
    a: TranscribeAction,
) -> Table {
    match a {
        TranscribeAction::CreateRecord => table_after_create(
            table,
            TranscriptionModel {
                id: created,
                filename,
                status: TranscriptionStatus::Pending,
                content: None,
            },
        ),
        TranscribeAction::UpdateStatus { id, status } => table_after_status(table, id, status),
        TranscribeAction::SaveResult { id, text } => table_after_result(table, id, text@),
        TranscribeAction::MarkFailed { id } => table_after_status(
            table,
            id,
            TranscriptionStatus::Failed,
        ),
        _ => table,
    }
}

/// The table after the writes of a sequence of actions, in order.
pub open spec fn table_after_actions(
    table: Table,
    filename: Seq<char>,
    created: u128,
    actions: Seq<TranscribeAction>,
) -> Table
    decreases actions.len(),
{
    if actions.len() == 0 {
        table
    } else {
        table_after_actions(
            table_after_action(table, filename, created, actions[0]),
            filename,
            created,
            actions.drop_first(),
        )
    }
}

/// A record that was just created reads back as created: its identifier,
/// its file name, PENDING and no text; no other row changes.
pub proof fn lemma_create_then_read(table: Table, t: TranscriptionModel)
    requires
        !table.dom().contains(uuid_text(t.id)),
        t.status == TranscriptionStatus::Pending,
        t.content is None,
    ensures
        row_for_id(table_after_create(table, t), t.id) == Some(encode_row(t)),
        table_after_create(table, t) == table.insert(uuid_text(t.id), encode_row(t)),
{
    assert(table_after_create(table, t) =~= table.insert(uuid_text(t.id), encode_row(t)));
}

/// A record that was created and then given its text reads back with that
/// text and COMPLETED; its identifier and file name stay.
pub proof fn lemma_save_then_read(table: Table, t: TranscriptionModel, text: Seq<char>)
    requires
        !table.dom().contains(uuid_text(t.id)),
        t.status == TranscriptionStatus::Pending,
        t.content is None,
    ensures
        row_for_id(table_after_result(table_after_create(table, t), t.id, text), t.id) == Some(
            encode_row(
                TranscriptionModel {
                    id: t.id,
                    filename: t.filename,
                    status: TranscriptionStatus::Completed,
                    content: Some(text),
                },
            ),
        ),
{
}

/// After a run that answered `Ok(text)` with every store write done, the
/// table holds, under the created identifier, the row of a COMPLETED record
/// of the uploaded file with that text, and nothing else has changed.
pub proof fn lemma_completed_run_stores_text(
    table: Table,
    filename: Seq<char>,
    events: Seq<TranscribeEvent>,
    text: String,
)
    requires
        completed_events(events, text),
        !table.dom().contains(uuid_text(events[0]->Created_0->Ok_0)),
    ensures
        ({
            let id = events[0]->Created_0->Ok_0;
            let stored = TranscriptionModel {
                id,
                filename,
                status: TranscriptionStatus::Completed,
                content: Some(text@),
            };
            &&& table_after_actions(table, filename, id, run_from_start(events).1) == table.insert(
                uuid_text(id),
                encode_row(stored),
            )
            &&& row_for_id(
                table_after_actions(table, filename, id, run_from_start(events).1),
                id,
            ) == Some(encode_row(stored))
        }),
{
    let id = events[0]->Created_0->Ok_0;
    lemma_completed_run(events, text);
    let acts = run_from_start(events).1;
    reveal_with_fuel(table_after_actions, 6);
    let stored = TranscriptionModel {
        id,
        filename,
        status: TranscriptionStatus::Completed,
        content: Some(text@),
    };
    assert(acts.drop_first().drop_first().drop_first().drop_first().drop_first().len() == 0);
    assert(table_after_actions(table, filename, id, acts) =~= table.insert(
        uuid_text(id),
        encode_row(stored),
    ));
}

/// After a run whose model failed, with every store write done, the table
/// holds, under the created identifier, the row of a FAILED record of the
/// uploaded file without text, and nothing else has changed.
pub proof fn lemma_failed_run_stores_failure(
    table: Table,
    filename: Seq<char>,
    events: Seq<TranscribeEvent>,
    error: crate::error::WhisperError,
)
    requires
        failed_events(events, error),
        !table.dom().contains(uuid_text(events[0]->Created_0->Ok_0)),
    ensures
        ({
            let id = events[0]->Created_0->Ok_0;
            let stored = TranscriptionModel {
                id,
                filename,
                status: TranscriptionStatus::Failed,
                content: None,
            };
            &&& table_after_actions(table, filename, id, run_from_start(events).1) == table.insert(
                uuid_text(id),
                encode_row(stored),
            )
            &&& row_for_id(
                table_after_actions(table, filename, id, run_from_start(events).1),
                id,
            ) == Some(encode_row(stored))
        }),
{
    let id = events[0]->Created_0->Ok_0;
    lemma_failed_run(events, error);
    let acts = run_from_start(events).1;
    reveal_with_fuel(table_after_actions, 6);
    let stored = TranscriptionModel {
        id,
        filename,
        status: TranscriptionStatus::Failed,
        content: None,
    };
    assert(acts.drop_first().drop_first().drop_first().drop_first().drop_first().len() == 0);
    assert(table_after_actions(table, filename, id, acts) =~= table.insert(
        uuid_text(id),
        encode_row(stored),
    ));
}

} // verus!
