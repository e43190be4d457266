use slint_agent_desktop::domain::{Note, NoteId};
use slint_agent_desktop::service::{Clock, NoteRepository, NoteService};
use slint_agent_desktop::state::ApplicationError;
use slint_agent_desktop::system::Timestamp;

#[derive(Clone, Copy)]
struct FixedClock(Timestamp);

impl Clock for FixedClock {
    fn now(&self) -> Timestamp {
        self.0
    }
}

fn at(seconds: i64) -> Timestamp {
    Timestamp::from_unix(seconds, 0)
}

#[derive(Clone, Default)]
struct FakeNoteRepository {
    notes: Vec<Note>,
}

impl NoteRepository for FakeNoteRepository {
    fn create_note(&mut self, note: Note) -> Result<(), ApplicationError> {
        self.notes.push(note);
        Ok(())
    }

    fn list_notes(&self) -> Result<Vec<Note>, ApplicationError> {
        Ok(self.notes.clone())
    }

    fn update_note(&mut self, note: Note) -> Result<(), ApplicationError> {
        if let Some(existing) = self
            .notes
            .iter_mut()
            .find(|existing| existing.id().as_str() == note.id().as_str())
        {
            *existing = note;
        }
        Ok(())
    }

    fn delete_note(&mut self, id: &NoteId) -> Result<(), ApplicationError> {
        self.notes.retain(|note| note.id().as_str() != id.as_str());
        Ok(())
    }
}

fn service(now: Timestamp) -> NoteService<FakeNoteRepository, FixedClock> {
    NoteService::with_clock(FakeNoteRepository::default(), FixedClock(now))
}

#[test]
fn create_note_rejects_blank_titles() {
    let mut service = service(at(0));
    let result = service.create_note("   ", "Inhalt");
    assert!(result.is_err());
    assert!(service.list_notes().unwrap().is_empty());
}

#[test]
fn create_list_rename_archive_and_delete_round_trip() {
    let mut service = service(at(0));
    let id = service.create_note("Einkaufen", "Milch, Brot").unwrap();

    let notes = service.list_notes().unwrap();
    assert_eq!(notes.len(), 1);
    assert_eq!(notes[0].title().as_str(), "Einkaufen");
    assert!(!notes[0].is_archived());

    service.rename_note(&id, "Wocheneinkauf").unwrap();
    assert_eq!(
        service.list_notes().unwrap()[0].title().as_str(),
        "Wocheneinkauf"
    );

    service.archive_note(&id).unwrap();
    assert!(service.list_active_notes().unwrap().is_empty());
    assert_eq!(service.list_notes().unwrap().len(), 1);

    service.unarchive_note(&id).unwrap();
    assert_eq!(service.list_active_notes().unwrap().len(), 1);

    service.delete_note(&id).unwrap();
    assert!(service.list_notes().unwrap().is_empty());
}

#[test]
fn operating_on_an_unknown_note_id_fails() {
    let mut service = service(at(0));
    let unknown = NoteId::new("does-not-exist").unwrap();
    assert!(service.rename_note(&unknown, "Neu").is_err());
    assert!(service.archive_note(&unknown).is_err());
}

#[test]
fn deleting_an_unknown_note_id_is_idempotent() {
    let mut service = service(at(0));
    let unknown = NoteId::new("does-not-exist").unwrap();
    assert!(service.delete_note(&unknown).is_ok());
}

#[test]
fn created_notes_get_a_hyphenated_uuid_and_the_clock_time() {
    let mut service = service(at(42));
    let id = service.create_note(" Titel ", "Inhalt").unwrap();
    let text = id.as_str();
    assert_eq!(text.len(), 36);
    for (i, c) in text.chars().enumerate() {
        if i == 8 || i == 13 || i == 18 || i == 23 {
            assert_eq!(c, '-');
        } else {
            assert!(c.is_ascii_digit() || ('a'..='f').contains(&c));
        }
    }
    let notes = service.list_notes().unwrap();
    assert_eq!(notes[0].title().as_str(), "Titel");
    assert_eq!(notes[0].created_at(), at(42));
    assert_eq!(notes[0].updated_at(), at(42));
    let other = service.create_note("Zweite", "").unwrap();
    assert_ne!(other.as_str(), id.as_str());
}

#[test]
fn unknown_note_errors_name_the_identifier() {
    let mut service = service(at(0));
    let unknown = NoteId::new("gibt-es-nicht").unwrap();
    let error = service.update_note(&unknown, "T", "B").unwrap_err();
    assert_eq!(
        error.to_string(),
        "ungültige Nutzdaten: Notiz gibt-es-nicht wurde nicht gefunden"
    );
}

#[test]
fn updating_a_note_changes_title_body_and_time() {
    let mut service = service(at(1));
    let id = service.create_note("Alt", "alt").unwrap();
    service.update_note(&id, " Neu ", "neu").unwrap();
    let note = &service.list_notes().unwrap()[0];
    assert_eq!(note.title().as_str(), "Neu");
    assert_eq!(note.body().as_str(), "neu");
    assert!(service.update_note(&id, "  ", "x").is_err());
    assert_eq!(service.list_notes().unwrap()[0].title().as_str(), "Neu");
}
