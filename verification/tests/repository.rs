use slint_agent_desktop::domain::{AppSettings, Note, NoteBody, NoteId, NoteTitle};
use slint_agent_desktop::repository::{
    bool_to_i64, initialize_repository, MemoryRepository, PersistedData, CURRENT_SCHEMA_VERSION,
};
use slint_agent_desktop::service::{AppRepository, NoteRepository, UserDataRepository};
use slint_agent_desktop::system::Timestamp;

fn note(id: &str, title: &str) -> Note {
    Note::new(
        NoteId::new(id).unwrap(),
        NoteTitle::new(title).unwrap(),
        NoteBody::new("").unwrap(),
        Timestamp::from_unix(0, 0),
    )
}

#[test]
fn memory_repository_keeps_settings_in_memory() {
    let mut repo = MemoryRepository::with_default_settings();
    repo.save_settings(AppSettings {
        theme_mode: "dark".into(),
        ..AppSettings::default()
    })
    .unwrap();
    assert_eq!(repo.load_settings().unwrap().theme_mode, "dark");
    assert_eq!(
        initialize_repository().load_settings().unwrap(),
        AppSettings::default()
    );
}

#[test]
fn memory_repository_updates_and_deletes_notes_by_id() {
    let mut repo = MemoryRepository::default();
    repo.create_note(note("a", "Eins")).unwrap();
    repo.create_note(note("b", "Zwei")).unwrap();
    repo.update_note(note("b", "Drei")).unwrap();
    repo.update_note(note("c", "Neu")).unwrap();
    let notes = repo.list_notes().unwrap();
    assert_eq!(notes.len(), 2);
    assert_eq!(notes[1].title().as_str(), "Drei");
    repo.delete_note(&NoteId::new("a").unwrap()).unwrap();
    repo.delete_note(&NoteId::new("a").unwrap()).unwrap();
    assert_eq!(repo.list_notes().unwrap().len(), 1);
}

#[test]
fn memory_backup_and_reset() {
    let mut repo = MemoryRepository::with_default_settings();
    repo.create_note(note("a", "Eins")).unwrap();
    assert_eq!(repo.create_backup().unwrap(), "memory://backup");
    repo.reset_user_data().unwrap();
    assert!(repo.list_notes().unwrap().is_empty());
    assert!(repo.list_submissions().unwrap().is_empty());
}

#[test]
fn flags_and_schema_versions() {
    assert_eq!(bool_to_i64(true), 1);
    assert_eq!(bool_to_i64(false), 0);
    let mut legacy = PersistedData {
        version: 0,
        ..PersistedData::default()
    };
    legacy.migrate();
    assert_eq!(legacy.version, CURRENT_SCHEMA_VERSION);
    let mut newer = PersistedData {
        version: CURRENT_SCHEMA_VERSION + 1,
        ..PersistedData::default()
    };
    newer.migrate();
    assert_eq!(newer.version, CURRENT_SCHEMA_VERSION + 1);
}
