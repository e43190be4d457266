use slint_agent_desktop::rows::{
    database_error, note_from_row, read_timestamp, record_from_row, timestamp_text,
};
use slint_agent_desktop::state::{ApplicationError, ErrorKind};
use slint_agent_desktop::system::Timestamp;

#[test]
fn points_in_time_are_stored_as_rfc3339() {
    assert_eq!(
        timestamp_text(Timestamp::from_unix(0, 0)).unwrap(),
        "1970-01-01T00:00:00+00:00"
    );
    assert_eq!(
        timestamp_text(Timestamp::from_unix(1767323045, 0)).unwrap(),
        "2026-01-02T03:04:05+00:00"
    );
    assert!(timestamp_text(Timestamp::from_unix(i64::MAX, 0)).is_err());
    assert_eq!(
        read_timestamp("2026-01-02T03:04:05+02:00").unwrap(),
        Timestamp::from_unix(1767315845, 0)
    );
    assert_eq!(
        read_timestamp("2026-01-02T03:04:05.5Z").unwrap(),
        Timestamp::from_unix(1767323045, 500_000_000)
    );
    assert!(read_timestamp("gestern")
        .unwrap_err()
        .starts_with("Zeitstempel ist ungültig: "));
}

#[test]
fn stored_note_rows_are_checked() {
    let note = note_from_row(
        "note-1",
        " Titel ",
        "Inhalt",
        "1970-01-01T00:00:10Z",
        "1970-01-01T00:00:20Z",
        1,
    )
    .unwrap();
    assert_eq!(note.id().as_str(), "note-1");
    assert_eq!(note.title().as_str(), "Titel");
    assert_eq!(note.created_at(), Timestamp::from_unix(10, 0));
    assert_eq!(note.updated_at(), Timestamp::from_unix(20, 0));
    assert!(note.is_archived());

    let ts = "1970-01-01T00:00:00Z";
    assert_eq!(
        note_from_row(" ", "T", "", ts, ts, 0).unwrap_err(),
        "Notiz-ID darf nicht leer sein"
    );
    assert_eq!(
        note_from_row("n", "", "", ts, ts, 0).unwrap_err(),
        "Notiztitel darf nicht leer sein"
    );
    assert!(note_from_row("n", "T", "", "kaputt", ts, 0)
        .unwrap_err()
        .starts_with("Zeitstempel ist ungültig: "));
}

#[test]
fn stored_submission_rows_are_checked() {
    let record = record_from_row("id-1", "submit", "Wert", "1970-01-01T00:01:00Z", 0).unwrap();
    assert_eq!(record.id.as_str(), "id-1");
    assert_eq!(record.description, "Wert");
    assert_eq!(record.created_at, Timestamp::from_unix(60, 0));
    assert!(!record.active);
    assert_eq!(
        record_from_row("", "submit", "Wert", "1970-01-01T00:01:00Z", 1).unwrap_err(),
        "invalid app identifier"
    );
}

#[test]
fn database_failures_are_classified() {
    let damaged = database_error(true, None, "ignored");
    assert_eq!(damaged.kind(), ErrorKind::DataRecoveryRequired);
    assert_eq!(
        damaged.to_string(),
        "Datenwiederherstellung erforderlich: SQLite-Datenbank ist beschädigt oder inkompatibel: keine Detailmeldung"
    );
    assert!(matches!(
        database_error(false, Some("x".into()), "disk I/O error"),
        ApplicationError::Repository(m) if m == "SQLite-Fehler: disk I/O error"
    ));
}
