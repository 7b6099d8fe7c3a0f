//! The transcription record and the row form in which the store keeps it.
use vstd::prelude::*;
use crate::text::opt_string_text;
use crate::ident::{new_random_uuid, parse_uuid, format_uuid, uuid_text, uuid_parse, is_random_uuid};
use crate::status::{TranscriptionStatus, status_text, status_from_text, unknown_status_message,
    lemma_status_text_roundtrip};

verus! {

/// A transcription: its identifier, the name of the uploaded file, its
/// lifecycle status, and the text once it is known.
#[derive(Clone, Debug)]
pub struct Transcription {
    pub id: u128,
    pub original_filename: String,
    pub status: TranscriptionStatus,
    pub content: Option<String>,
}

/// A transcription as the store keeps it and as the API shows it: every
/// field as text (`id` hyphenated, `status` by its name).
#[derive(Clone, Debug)]
pub struct TranscriptionRow {
    pub id: String,
    pub filename: String,
    pub status: String,
    pub content: Option<String>,
}

/// Mathematical view of a transcription.
pub struct TranscriptionModel {
    pub id: u128,
    pub filename: Seq<char>,
    pub status: TranscriptionStatus,
    pub content: Option<Seq<char>>,
}

/// Mathematical view of a row.
pub struct RowModel {
    pub id: Seq<char>,
    pub filename: Seq<char>,
    pub status: Seq<char>,
    pub content: Option<Seq<char>>,
}

impl View for Transcription {
    type V = TranscriptionModel;

    open spec fn view(&self) -> TranscriptionModel {
        TranscriptionModel {
            id: self.id,
            filename: self.original_filename@,
            status: self.status,
            content: opt_string_text(self.content),
        }
    }
}

impl View for TranscriptionRow {
    type V = RowModel;

    open spec fn view(&self) -> RowModel {
        RowModel {
            id: self.id@,
            filename: self.filename@,
            status: self.status@,
            content: opt_string_text(self.content),
        }
    }
}

/// The row that holds a transcription.
pub open spec fn encode_row(t: TranscriptionModel) -> RowModel {
    RowModel {
        id: uuid_text(t.id),
        filename: t.filename,
        status: status_text(t.status),
        content: t.content,
    }
}

/// The transcription that a row holds, or the error that reading it gives:
/// the identifier is read first, then the status.
pub open spec fn decode_row(r: RowModel) -> Result<TranscriptionModel, Seq<char>> {
    match uuid_parse(r.id) {
        Err(m) => Err(m),
        Ok(id) => match status_from_text(r.status) {
            None => Err(unknown_status_message(r.status)),
            Some(st) => Ok(
                TranscriptionModel { id, filename: r.filename, status: st, content: r.content },
            ),
        },
    }
}

/// The transcriptions that a list of rows holds, in order, or the error of
/// the first row that cannot be read.
pub open spec fn decode_rows(rows: Seq<RowModel>) -> Result<Seq<TranscriptionModel>, Seq<char>>
    decreases rows.len(),
{
    if rows.len() == 0 {
        Ok(Seq::empty())
    } else {
        match decode_row(rows[0]) {
            Err(m) => Err(m),
            Ok(t) => match decode_rows(rows.drop_first()) {
                Err(m) => Err(m),
                Ok(ts) => Ok(seq![t] + ts),
            },
        }
    }
}

/// The view of a decoding result whose error is a `String`.
pub open spec fn result_model<T: View>(r: Result<T, String>) -> Result<T::V, Seq<char>> {
    match r {
        Ok(t) => Ok(t@),
        Err(m) => Err(m@),
    }
}

fn clone_opt_string(o: &Option<String>) -> (r: Option<String>)
    ensures
        opt_string_text(r) == opt_string_text(*o),
{
    match o {
        Some(s) => Some(s.clone()),
        None => None,
    }
}

impl Transcription {
    /// A new PENDING transcription of the file `original_filename`, with a
    /// fresh random identifier and no text.
    pub fn new(original_filename: &str) -> (t: Transcription)
        ensures
            t@.filename == original_filename@,
            t.status == TranscriptionStatus::Pending,
            t.content is None,
            is_random_uuid(t.id),
    {
        Transcription {
            id: new_random_uuid(),
            original_filename: original_filename.to_owned(),
            status: TranscriptionStatus::Pending,
            content: None,
        }
    }

    /// The row that stores this transcription.
    pub fn to_row(&self) -> (r: TranscriptionRow)
        ensures
            r@ == encode_row(self@),
    {
        TranscriptionRow {
            id: format_uuid(self.id),
            filename: self.original_filename.clone(),
            status: self.status.status_text(),
            content: clone_opt_string(&self.content),
        }
    }

    /// Reads a transcription from a row: the identifier must parse as a
    /// UUID and the status must be one of the four status texts. Reading the
    /// row that `to_row` wrote gives the transcription back.
    pub fn try_from_row(row: &TranscriptionRow) -> (r: Result<Transcription, String>)
        ensures
            result_model(r) == decode_row(row@),
            forall|t: TranscriptionModel| row@ == #[trigger] encode_row(t) ==> result_model(r) == Ok::<TranscriptionModel, Seq<char>>(t),
    {
        let id = match parse_uuid(row.id.as_str()) {
            Ok(v) => v,
            Err(m) => {
                return Err(m);
            },
        };
        let status = match TranscriptionStatus::parse_text(row.status.as_str()) {
            Ok(st) => st,
            Err(m) => {
                return Err(m);
            },
        };
        let t = Transcription {
            id,
            original_filename: row.filename.clone(),
            status,
            content: clone_opt_string(&row.content),
        };
        proof {
            assert forall|m: TranscriptionModel| row@ == #[trigger] encode_row(m) implies result_model(
                Ok::<Transcription, String>(t),
            ) == Ok::<TranscriptionModel, Seq<char>>(m) by {
                lemma_status_text_roundtrip(m.status);
            }
        }
        Ok(t)
    }
}

/// The optional transcription that an optional row holds (a lookup by
/// identifier): no row gives `Ok(None)`, a row is read by `try_from_row`.
pub fn transcription_from_lookup(row: Option<TranscriptionRow>) -> (r: Result<Option<Transcription>, String>)
    ensures
        row is None ==> (r matches Ok(o) && o is None),
        row matches Some(x) ==> match decode_row(x@) {
            Ok(t) => (r matches Ok(o) && (o matches Some(y) && y@ == t)),
            Err(m) => (r matches Err(e) && e@ == m),
        },
        forall|t: TranscriptionModel|
            row matches Some(x) && x@ == #[trigger] encode_row(t) ==> (r matches Ok(o) && (o matches Some(y)
                && y@ == t)),
{
    match row {
        None => Ok(None),
        Some(x) => match Transcription::try_from_row(&x) {
            Ok(t) => Ok(Some(t)),
            Err(e) => Err(e),
        },
    }
}

/// If every row before `i` reads and row `i` does not, the whole list
/// reads as the error of row `i`; if every row reads, the list reads as
/// their transcriptions.
proof fn lemma_decode_rows_prefix(rows: Seq<RowModel>, i: int)
    requires
        0 <= i <= rows.len(),
        forall|j: int| 0 <= j < i ==> decode_row(#[trigger] rows[j]) is Ok,
    ensures
        i == rows.len() ==> decode_rows(rows) == Ok::<Seq<TranscriptionModel>, Seq<char>>(
            rows.map_values(|x: RowModel| decode_row(x)->Ok_0),
        ),
        i < rows.len() && decode_row(rows[i]) is Err ==> decode_rows(rows) == Err::<Seq<TranscriptionModel>, Seq<char>>(
            decode_row(rows[i])->Err_0,
        ),
    decreases rows.len(),
{
    if rows.len() > 0 {
        let rest = rows.drop_first();
        if i > 0 {
            assert forall|j: int| 0 <= j < i - 1 implies decode_row(#[trigger] rest[j]) is Ok by {
                assert(rest[j] == rows[j + 1]);
            }
            lemma_decode_rows_prefix(rest, i - 1);
            assert(decode_row(rows[0]) is Ok);
            if i == rows.len() {
                assert(rows.map_values(|x: RowModel| decode_row(x)->Ok_0) =~= seq![decode_row(rows[0])->Ok_0] + rest.map_values(|x: RowModel| decode_row(x)->Ok_0));
            }
        }
    } else {
        assert(rows.map_values(|x: RowModel| decode_row(x)->Ok_0) =~= Seq::<TranscriptionModel>::empty());
    }
}

/// The transcriptions that a list of rows holds, in order; the error of the
/// first row that cannot be read fails the whole list.
pub fn transcriptions_from_rows(rows: &Vec<TranscriptionRow>) -> (r: Result<Vec<Transcription>, String>)
    ensures
        match decode_rows(rows@.map_values(|x: TranscriptionRow| x@)) {
            Ok(ts) => (r matches Ok(v) && v@.map_values(|y: Transcription| y@) == ts),
            Err(m) => (r matches Err(e) && e@ == m),
        },
{
    let ghost models = rows@.map_values(|x: TranscriptionRow| x@);
    let mut out: Vec<Transcription> = Vec::new();
    let mut i: usize = 0;
    while i < rows.len()
        invariant
            i <= rows.len(),
            models == rows@.map_values(|x: TranscriptionRow| x@),
            out@.len() == i,
            forall|j: int| 0 <= j < i ==> decode_row(#[trigger] models[j]) is Ok,
            forall|j: int| 0 <= j < i ==> (#[trigger] out@[j])@ == decode_row(models[j])->Ok_0,
        decreases rows.len() - i,
    {
        match Transcription::try_from_row(&rows[i]) {
            Ok(t) => {
                out.push(t);
            },
            Err(e) => {
                proof {
                    assert(models[i as int] == rows@[i as int]@);
                    lemma_decode_rows_prefix(models, i as int);
                }
                return Err(e);
            },
        }
        i = i + 1;
    }
    proof {
        lemma_decode_rows_prefix(models, i as int);
        assert(out@.map_values(|y: Transcription| y@) =~= models.map_values(|x: RowModel| decode_row(x)->Ok_0));
    }
    Ok(out)
}

} // verus!
