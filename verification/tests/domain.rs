use slint_agent_desktop::domain::{
    AppId, DomainError, ExampleSettings, Note, NoteBody, NoteId, NoteTitle, NOTE_BODY_MAX_LEN,
    NOTE_TITLE_MAX_LEN,
};
use slint_agent_desktop::system::Timestamp;

fn at(seconds: i64) -> Timestamp {
    Timestamp::from_unix(seconds, 0)
}

#[test]
fn app_id_rejects_blank_values() {
    assert_eq!(
        AppId::new("  ").unwrap_err().to_string(),
        "invalid app identifier"
    );
    assert_eq!(AppId::new("demo").unwrap().as_str(), "demo");
}

#[test]
fn default_settings_are_enabled() {
    let settings = ExampleSettings::default();
    assert!(settings.enabled);
    assert!(!settings.app_name.is_empty());
}

#[test]
fn note_title_rejects_blank_and_overlong_values() {
    assert!(matches!(
        NoteTitle::new("   "),
        Err(DomainError::InvalidNoteTitle)
    ));
    assert!(matches!(
        NoteTitle::new(&"x".repeat(NOTE_TITLE_MAX_LEN + 1)),
        Err(DomainError::NoteTitleTooLong)
    ));
    assert_eq!(NoteTitle::new(" Einkaufen ").unwrap().as_str(), "Einkaufen");
}

#[test]
fn note_body_rejects_overlong_values_but_allows_empty() {
    assert!(NoteBody::new("").is_ok());
    assert!(matches!(
        NoteBody::new(&"x".repeat(NOTE_BODY_MAX_LEN + 1)),
        Err(DomainError::NoteBodyTooLong)
    ));
}

#[test]
fn note_lifecycle_tracks_updated_at_and_archival_state() {
    let id = NoteId::new("note-1").unwrap();
    let title = NoteTitle::new("Titel").unwrap();
    let body = NoteBody::new("Inhalt").unwrap();
    let mut note = Note::new(id, title, body, at(0));
    assert!(!note.is_archived());
    assert_eq!(note.updated_at(), at(0));

    note.archive(at(10));
    assert!(note.is_archived());
    assert_eq!(note.updated_at(), at(10));

    note.unarchive(at(20));
    assert!(!note.is_archived());
    assert_eq!(note.updated_at(), at(20));

    note.rename(NoteTitle::new("Neuer Titel").unwrap(), at(30));
    assert_eq!(note.title().as_str(), "Neuer Titel");
    assert_eq!(note.updated_at(), at(30));
}

#[test]
fn note_limits_are_inclusive() {
    assert_eq!(
        NoteTitle::new(&"x".repeat(NOTE_TITLE_MAX_LEN)).unwrap().as_str().len(),
        NOTE_TITLE_MAX_LEN
    );
    assert!(NoteBody::new(&"x".repeat(NOTE_BODY_MAX_LEN)).is_ok());
    assert_eq!(NoteBody::new("  Inhalt ").unwrap().as_str(), "  Inhalt ");
}

#[test]
fn note_and_app_identifiers_trim_nothing_but_reject_blanks() {
    assert_eq!(
        NoteId::new("\t ").unwrap_err().to_string(),
        "Notiz-ID darf nicht leer sein"
    );
    assert_eq!(NoteId::new(" a ").unwrap().as_str(), " a ");
    assert!(NoteId::new("x").unwrap().same_as(&NoteId::new("x").unwrap()));
    assert!(!NoteId::new("x").unwrap().same_as(&NoteId::new("y").unwrap()));
}

#[test]
fn domain_errors_have_stable_messages() {
    assert_eq!(
        DomainError::EmptyValue.to_string(),
        "Wert darf nicht leer sein"
    );
    assert_eq!(
        DomainError::InvalidNoteTitle.to_string(),
        "Notiztitel darf nicht leer sein"
    );
}

#[test]
fn a_note_from_storage_keeps_every_field() {
    let note = Note::from_persisted(
        NoteId::new("n").unwrap(),
        NoteTitle::new("T").unwrap(),
        NoteBody::new("B").unwrap(),
        at(5),
        at(7),
        true,
    );
    assert_eq!(note.id().as_str(), "n");
    assert_eq!(note.body().as_str(), "B");
    assert_eq!(note.created_at(), at(5));
    assert_eq!(note.updated_at(), at(7));
    assert!(note.is_archived());
}
