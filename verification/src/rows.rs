//! The rows in which a database keeps notes and submissions: points in time
//! as RFC 3339 text, flags as integers, and the checks that a stored row
//! passes before it becomes a value of the domain again.
use crate::domain::{
    note_body_outcome, note_title_outcome, AppId, DomainError, Note, NoteBody, NoteId, NoteTitle,
    NoteView, SubmissionRecord, SubmissionRecordView,
};
use crate::state::{ApplicationError, ApplicationErrorView};
use crate::system::{parse_rfc3339, render_rfc3339, rfc3339_parsed, rfc3339_rendered, Timestamp};
use crate::text::{concat, is_blank};
use vstd::prelude::*;

verus! {

/// The text under which a point in time is stored.
pub fn timestamp_text(t: Timestamp) -> (r: Result<String, ApplicationError>)
    ensures
        match r {
            Ok(s) => rfc3339_rendered(t.unix_seconds, t.nanos) == Some(s@),
            Err(e) => rfc3339_rendered(t.unix_seconds, t.nanos) is None && e@
                == ApplicationErrorView::Repository("Zeitpunkt ist nicht darstellbar"@),
        },
{
    match render_rfc3339(t.unix_seconds, t.nanos) {
        Some(s) => Ok(s),
        None => Err(ApplicationError::Repository("Zeitpunkt ist nicht darstellbar".to_owned())),
    }
}

/// The point in time that a stored text gives, or why it gives none.
pub open spec fn stored_timestamp(text: Seq<char>) -> Result<Timestamp, Seq<char>> {
    match rfc3339_parsed(text) {
        Ok((s, n)) => Ok(Timestamp { unix_seconds: s, nanos: n }),
        Err(e) => Err("Zeitstempel ist ungültig: "@ + e),
    }
}

/// The point in time stored as `text`.
pub fn read_timestamp(text: &str) -> (r: Result<Timestamp, String>)
    ensures
        match r {
            Ok(t) => stored_timestamp(text@) == Ok::<Timestamp, Seq<char>>(t),
            Err(e) => stored_timestamp(text@) == Err::<Timestamp, Seq<char>>(e@),
        },
{
    match parse_rfc3339(text) {
        Ok(t) => Ok(t),
        Err(e) => Err(concat("Zeitstempel ist ungültig: ", e.as_str())),
    }
}

/// The note that a stored row gives: its identifier, title and body pass
/// the rules of the domain, its two points in time parse, and a non-zero
/// flag means archived; the first check that fails gives the error.
pub open spec fn note_row_outcome(
    id: Seq<char>,
    title: Seq<char>,
    body: Seq<char>,
    created_at: Seq<char>,
    updated_at: Seq<char>,
    archived: i64,
) -> Result<NoteView, Seq<char>> {
    if is_blank(id) {
        Err(DomainError::InvalidNoteId.message())
    } else {
        match note_title_outcome(title) {
            Err(e) => Err(e.message()),
            Ok(t) => match note_body_outcome(body) {
                Err(e) => Err(e.message()),
                Ok(b) => match stored_timestamp(created_at) {
                    Err(e) => Err(e),
                    Ok(c) => match stored_timestamp(updated_at) {
                        Err(e) => Err(e),
                        Ok(u) => Ok(
                            NoteView {
                                id,
                                title: t,
                                body: b,
                                created_at: c,
                                updated_at: u,
                                archived: archived != 0,
                            },
                        ),
                    },
                },
            },
        }
    }
}

/// The note that a stored row gives.
pub fn note_from_row(
    id: &str,
    title: &str,
    body: &str,
    created_at: &str,
    updated_at: &str,
    archived: i64,
) -> (r: Result<Note, String>)
    ensures
        match r {
            Ok(n) => note_row_outcome(id@, title@, body@, created_at@, updated_at@, archived) == Ok::<
                NoteView,
                Seq<char>,
            >(n@),
            Err(e) => note_row_outcome(id@, title@, body@, created_at@, updated_at@, archived)
                == Err::<NoteView, Seq<char>>(e@),
        },
{
    let id = match NoteId::new(id) {
        Ok(v) => v,
        Err(e) => return Err(e.to_string()),
    };
    let title = match NoteTitle::new(title) {
        Ok(v) => v,
        Err(e) => return Err(e.to_string()),
    };
    let body = match NoteBody::new(body) {
        Ok(v) => v,
        Err(e) => return Err(e.to_string()),
    };
    let created = read_timestamp(created_at)?;
    let updated = read_timestamp(updated_at)?;
    Ok(Note::from_persisted(id, title, body, created, updated, archived != 0))
}

/// The submission record that a stored row gives: its identifier is not
/// blank and its point in time parses; a non-zero flag means active.
pub open spec fn record_row_outcome(
    id: Seq<char>,
    title: Seq<char>,
    description: Seq<char>,
    created_at: Seq<char>,
    active: i64,
) -> Result<SubmissionRecordView, Seq<char>> {
    if is_blank(id) {
        Err(DomainError::InvalidAppId.message())
    } else {
        match stored_timestamp(created_at) {
            Err(e) => Err(e),
            Ok(c) => Ok(SubmissionRecordView { id, title, description, created_at: c, active: active != 0 }),
        }
    }
}

/// The submission record that a stored row gives.
pub fn record_from_row(
    id: &str,
    title: &str,
    description: &str,
    created_at: &str,
    active: i64,
) -> (r: Result<SubmissionRecord, String>)
    ensures
        match r {
            Ok(rec) => record_row_outcome(id@, title@, description@, created_at@, active) == Ok::<
                SubmissionRecordView,
                Seq<char>,
            >(rec@),
            Err(e) => record_row_outcome(id@, title@, description@, created_at@, active) == Err::<
                SubmissionRecordView,
                Seq<char>,
            >(e@),
        },
{
    let id = match AppId::new(id) {
        Ok(v) => v,
        Err(e) => return Err(e.to_string()),
    };
    let created = read_timestamp(created_at)?;
    Ok(
        SubmissionRecord {
            id,
            title: title.to_owned(),
            description: description.to_owned(),
            created_at: created,
            active: active != 0,
        },
    )
}

/// The error that a failed database call becomes: a damaged or
/// incompatible database asks for recovery and carries SQLite's detail (or
/// a note that there is none); any other failure is a repository error with
/// the failure's text.
pub fn database_error(damaged: bool, detail: Option<String>, rendered: &str) -> (r: ApplicationError)
    ensures
        damaged ==> r@ == ApplicationErrorView::DataRecoveryRequired(
            "SQLite-Datenbank ist beschädigt oder inkompatibel: "@ + match detail {
                Some(d) => d@,
                None => "keine Detailmeldung"@,
            },
        ),
        !damaged ==> r@ == ApplicationErrorView::Repository("SQLite-Fehler: "@ + rendered@),
{
    if damaged {
        let d = match detail {
            Some(d) => d,
            None => "keine Detailmeldung".to_owned(),
        };
        ApplicationError::DataRecoveryRequired(
            concat("SQLite-Datenbank ist beschädigt oder inkompatibel: ", d.as_str()),
        )
    } else {
        ApplicationError::Repository(concat("SQLite-Fehler: ", rendered))
    }
}

} // verus!
