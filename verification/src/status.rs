//! The lifecycle status of a transcription record.
use vstd::prelude::*;
use crate::text::str_eq;

verus! {

/// State of a transcription in its lifecycle:
/// PENDING, then PROCESSING, then COMPLETED or FAILED.
#[derive(Clone, Copy, Debug, PartialEq, Eq, Structural)]
pub enum TranscriptionStatus {
    Pending,
    Processing,
    Completed,
    Failed,
}

/// The stored (and displayed) text of each status.
pub open spec fn status_text(s: TranscriptionStatus) -> Seq<char> {
    match s {
        TranscriptionStatus::Pending => seq!['P', 'E', 'N', 'D', 'I', 'N', 'G'],
        TranscriptionStatus::Processing => seq!['P', 'R', 'O', 'C', 'E', 'S', 'S', 'I', 'N', 'G'],
        TranscriptionStatus::Completed => seq!['C', 'O', 'M', 'P', 'L', 'E', 'T', 'E', 'D'],
        TranscriptionStatus::Failed => seq!['F', 'A', 'I', 'L', 'E', 'D'],
    }
}

/// The status whose text is `t`, if any.
pub open spec fn status_from_text(t: Seq<char>) -> Option<TranscriptionStatus> {
    if t == status_text(TranscriptionStatus::Pending) {
        Some(TranscriptionStatus::Pending)
    } else if t == status_text(TranscriptionStatus::Processing) {
        Some(TranscriptionStatus::Processing)
    } else if t == status_text(TranscriptionStatus::Completed) {
        Some(TranscriptionStatus::Completed)
    } else if t == status_text(TranscriptionStatus::Failed) {
        Some(TranscriptionStatus::Failed)
    } else {
        None
    }
}

/// Text of the error for an unknown status text `t`.
pub open spec fn unknown_status_message(t: Seq<char>) -> Seq<char> {
    seq!['S', 't', 'a', 't', 'u', 's', ' ', 'd', 'e', 's', 'c', 'o', 'n', 'h', 'e', 'c', 'i', 'd', 'o', ':', ' ']
        + t
}

/// The lifecycle moves of a record: PENDING to PROCESSING, and
/// PROCESSING to COMPLETED or FAILED.
pub open spec fn lifecycle_step(from: TranscriptionStatus, to: TranscriptionStatus) -> bool {
    match from {
        TranscriptionStatus::Pending => to == TranscriptionStatus::Processing,
        TranscriptionStatus::Processing => to == TranscriptionStatus::Completed || to
            == TranscriptionStatus::Failed,
        _ => false,
    }
}

impl TranscriptionStatus {
    /// The text of the status, as it is stored and shown.
    pub fn status_text(&self) -> (r: String)
        ensures
            r@ == status_text(*self),
    {
        let lit = match self {
            TranscriptionStatus::Pending => "PENDING",
            TranscriptionStatus::Processing => "PROCESSING",
            TranscriptionStatus::Completed => "COMPLETED",
            TranscriptionStatus::Failed => "FAILED",
        };
        proof {
            reveal_strlit("PENDING");
            reveal_strlit("PROCESSING");
            reveal_strlit("COMPLETED");
            reveal_strlit("FAILED");
        }
        let r = lit.to_owned();
        assert(r@ =~= status_text(*self));
        r
    }

    /// Reads a status from its text; any other text is an error naming it.
    pub fn parse_text(s: &str) -> (r: Result<TranscriptionStatus, String>)
        ensures
            r matches Ok(st) ==> status_from_text(s@) == Some(st),
            r is Err <==> status_from_text(s@) is None,
            r matches Err(m) ==> m@ == unknown_status_message(s@),
    {
        proof {
            reveal_strlit("PENDING");
            reveal_strlit("PROCESSING");
            reveal_strlit("COMPLETED");
            reveal_strlit("FAILED");
            reveal_strlit("Status desconhecido: ");
            assert("PENDING"@ =~= status_text(TranscriptionStatus::Pending));
            assert("PROCESSING"@ =~= status_text(TranscriptionStatus::Processing));
            assert("COMPLETED"@ =~= status_text(TranscriptionStatus::Completed));
            assert("FAILED"@ =~= status_text(TranscriptionStatus::Failed));
        }
        if str_eq(s, "PENDING") {
            Ok(TranscriptionStatus::Pending)
        } else if str_eq(s, "PROCESSING") {
            Ok(TranscriptionStatus::Processing)
        } else if str_eq(s, "COMPLETED") {
            Ok(TranscriptionStatus::Completed)
        } else if str_eq(s, "FAILED") {
            Ok(TranscriptionStatus::Failed)
        } else {
            let mut m = "Status desconhecido: ".to_owned();
            m.append(s);
            assert(m@ =~= unknown_status_message(s@));
            Err(m)
        }
    }
}

/// Reading back the text of a status gives the same status.
pub proof fn lemma_status_text_roundtrip(s: TranscriptionStatus)
    ensures
        status_from_text(status_text(s)) == Some(s),
{
    assert(status_text(TranscriptionStatus::Pending) != status_text(TranscriptionStatus::Processing));
    assert(status_text(TranscriptionStatus::Pending)[0] != status_text(TranscriptionStatus::Completed)[0]);
    assert(status_text(TranscriptionStatus::Pending)[0] != status_text(TranscriptionStatus::Failed)[0]);
    assert(status_text(TranscriptionStatus::Processing)[0] != status_text(TranscriptionStatus::Completed)[0]);
    assert(status_text(TranscriptionStatus::Processing)[0] != status_text(TranscriptionStatus::Failed)[0]);
    assert(status_text(TranscriptionStatus::Completed)[0] != status_text(TranscriptionStatus::Failed)[0]);
}

impl std::str::FromStr for TranscriptionStatus {
    type Err = String;

    fn from_str(s: &str) -> (r: Result<TranscriptionStatus, String>)
        ensures
            r matches Ok(st) ==> status_from_text(s@) == Some(st),
            r is Err <==> status_from_text(s@) is None,
            r matches Err(m) ==> m@ == unknown_status_message(s@),
    {
        TranscriptionStatus::parse_text(s)
    }
}

} // verus!
