//! Use cases over the persistence boundaries: submissions (`AppService`)
//! and notes (`NoteService`), and the repository traits they rely on.
use crate::domain::{
    default_settings, note_body_outcome, note_title_outcome, AppId, AppSettings, AppSettingsView,
    DomainError, Note, NoteBody, NoteId, NoteTitle, NoteView, SubmissionRecord,
    SubmissionRecordView,
};
use crate::note_list::{active, find_index, index_of_id, replaced, views, without_id};
use crate::repository::record_views;
use crate::state::{ApplicationError, ApplicationErrorView};
use crate::system::{is_hyphenated_uuid, new_v7_uuid_text, unix_millis, unix_millis_of, utc_now, Timestamp};
use crate::text::{concat3, decimal, decimal_string, is_blank, is_ws, trim, trim_str};
use vstd::prelude::*;

verus! {

/// Whether `e` is a failure of the storage itself: the class of errors that
/// a repository reports.
pub open spec fn is_storage_failure(e: ApplicationErrorView) -> bool {
    e is Repository || e is DataRecoveryRequired
}

/// Persistence boundary for settings and submissions.
///
/// An implementation describes its contents by `settings_model` (the
/// settings that loading gives) and `records_model` (the submissions in the
/// order that a listing gives them); the methods are stated over these.
/// Every error it reports is a storage failure. An implementation whose
/// calls always succeed says so by `submissions_never_fail`; by default no
/// such promise is made.
pub trait AppRepository {
    /// The settings that `load_settings` gives; each implementation defines
    /// it (the default describes a repository that holds nothing).
    closed spec fn settings_model(&self) -> AppSettingsView {
        default_settings()
    }

    /// The submissions in the order that `list_submissions` gives them;
    /// each implementation defines it.
    closed spec fn records_model(&self) -> Seq<SubmissionRecordView> {
        Seq::empty()
    }

    /// Whether every call on settings and submissions succeeds.
    closed spec fn submissions_never_fail(&self) -> bool {
        false
    }

    fn load_settings(&self) -> (r: Result<AppSettings, ApplicationError>)
        ensures
            r matches Ok(s) ==> s@ == self.settings_model(),
            r matches Err(e) ==> is_storage_failure(e@),
            self.submissions_never_fail() ==> r is Ok,
    ;

    /// Replaces the settings.
    fn save_settings(&mut self, settings: AppSettings) -> (r: Result<(), ApplicationError>)
        ensures
            r is Ok ==> final(self).settings_model() == settings@,
            r matches Err(e) ==> is_storage_failure(e@),
            old(self).submissions_never_fail() ==> r is Ok,
            final(self).submissions_never_fail() == old(self).submissions_never_fail(),
    ;

    /// Stores one more submission; a listing may order them its own way.
    fn save_submission(&mut self, submission: SubmissionRecord) -> (r: Result<(), ApplicationError>)
        ensures
            r is Ok ==> final(self).records_model().to_multiset() == old(self).records_model().push(submission@).to_multiset(),
            r is Ok ==> final(self).settings_model() == old(self).settings_model(),
            r matches Err(e) ==> is_storage_failure(e@),
            old(self).submissions_never_fail() ==> r is Ok,
            final(self).submissions_never_fail() == old(self).submissions_never_fail(),
    ;

    fn list_submissions(&self) -> (r: Result<Vec<SubmissionRecord>, ApplicationError>)
        ensures
            r matches Ok(v) ==> record_views(v@) == self.records_model(),
            r matches Err(e) ==> is_storage_failure(e@),
            self.submissions_never_fail() ==> r is Ok,
    ;
}

/// Persistence boundary for notes, kept apart from [`AppRepository`] so a
/// repository can support one, both or neither.
///
/// An implementation describes its contents by `notes_model`, the notes in
/// the order that a listing gives them; a listing may order them its own
/// way, so the changes are stated over the notes held, in any order. Every
/// error it reports is a storage failure. An implementation whose calls
/// always succeed says so by `notes_never_fail`; by default no such promise
/// is made.
pub trait NoteRepository {
    /// The notes in the order that `list_notes` gives them; each
    /// implementation defines it (the default describes a repository that
    /// holds nothing).
    closed spec fn notes_model(&self) -> Seq<NoteView> {
        Seq::empty()
    }

    /// Whether every call on notes succeeds.
    closed spec fn notes_never_fail(&self) -> bool {
        false
    }

    /// Stores one more note.
    fn create_note(&mut self, note: Note) -> (r: Result<(), ApplicationError>)
        ensures
            r is Ok ==> final(self).notes_model().to_multiset() == old(self).notes_model().push(
                note@,
            ).to_multiset(),
            r matches Err(e) ==> is_storage_failure(e@),
            old(self).notes_never_fail() ==> r is Ok,
            final(self).notes_never_fail() == old(self).notes_never_fail(),
    ;

    fn list_notes(&self) -> (r: Result<Vec<Note>, ApplicationError>)
        ensures
            r matches Ok(v) ==> views(v@) == self.notes_model(),
            r matches Err(e) ==> is_storage_failure(e@),
            self.notes_never_fail() ==> r is Ok,
    ;

    /// Puts `note` in place of the stored note with its identifier, if any.
    fn update_note(&mut self, note: Note) -> (r: Result<(), ApplicationError>)
        ensures
            r is Ok ==> final(self).notes_model().to_multiset() == replaced(
                old(self).notes_model(),
                note@,
            ).to_multiset(),
            r matches Err(e) ==> is_storage_failure(e@),
            old(self).notes_never_fail() ==> r is Ok,
            final(self).notes_never_fail() == old(self).notes_never_fail(),
    ;

    /// Forgets the notes with identifier `id`.
    fn delete_note(&mut self, id: &NoteId) -> (r: Result<(), ApplicationError>)
        ensures
            r is Ok ==> final(self).notes_model().to_multiset() == without_id(
                old(self).notes_model(),
                id@,
            ).to_multiset(),
            r matches Err(e) ==> is_storage_failure(e@),
            old(self).notes_never_fail() ==> r is Ok,
            final(self).notes_never_fail() == old(self).notes_never_fail(),
    ;
}

/// Maintenance of the user's stored data: backups and a full reset.
pub trait UserDataRepository {
    /// Writes a backup and returns where it went.
    fn create_backup(&mut self) -> Result<String, ApplicationError>;

    /// Forgets all notes and submissions.
    fn reset_user_data(&mut self) -> Result<(), ApplicationError>;
}

/// A source of the current time.
pub trait Clock {
    fn now(&self) -> Timestamp;
}

/// The system's wall clock.
pub struct SystemClock;

impl Clock for SystemClock {
    fn now(&self) -> Timestamp {
        utc_now()
    }
}

/// The value a user submits.
#[derive(Debug, Clone)]
pub struct SubmissionPayload {
    pub value: String,
}

/// A named command with its optional `value` argument.
#[derive(Debug, Clone)]
pub struct SubmissionCommand {
    pub command: String,
    pub value: Option<String>,
}

/// A hyphenated UUID is never blank: its first character is a hex digit.
pub proof fn lemma_uuid_not_blank(s: Seq<char>)
    requires
        is_hyphenated_uuid(s),
    ensures
        !is_blank(s),
{
    assert(!is_ws(s[0]));
}

/// Whether a submitted value is accepted: it must not be blank.
pub open spec fn submission_accepts(value: Seq<char>) -> bool {
    !is_blank(value)
}

/// The identifier of a submission made at `t` under an application named
/// `app_name`: the name, a hyphen and the milliseconds since 1970.
pub open spec fn submission_id(app_name: Seq<char>, t: Timestamp) -> Seq<char> {
    app_name + "-"@ + decimal(unix_millis(t) as nat)
}

/// The value that a command carries: its `value` argument, or nothing.
pub open spec fn command_value(command: SubmissionCommand) -> Seq<char> {
    match command.value {
        Some(v) => v@,
        None => Seq::empty(),
    }
}

/// Whether `after` holds the submissions of `before` and one more: the
/// record of `value`, made at some instant under `before`'s settings and
/// named after them and that instant.
pub open spec fn stores_submission<R: AppRepository>(before: R, after: R, value: Seq<char>) -> bool {
    exists|rec: SubmissionRecordView|
        {
            &&& rec.id == submission_id(before.settings_model().app_name, rec.created_at)
            &&& rec.title == "submit"@
            &&& rec.description == value
            &&& rec.active == before.settings_model().enabled
            &&& after.records_model().to_multiset() == (#[trigger] before.records_model().push(
                rec,
            )).to_multiset()
        }
}

/// The record that a submission of `value` becomes.
pub fn submission_record(settings: &AppSettings, value: &str, id: AppId, created_at: Timestamp) -> (r:
    SubmissionRecord)
    ensures
        r.id@ == id@,
        r.title@ == "submit"@,
        r.description@ == value@,
        r.created_at == created_at,
        r.active == settings.enabled,
{
    SubmissionRecord {
        id,
        title: "submit".to_owned(),
        description: value.to_owned(),
        created_at,
        active: settings.enabled,
    }
}

/// Use cases for submissions.
#[derive(Debug, Clone)]
pub struct AppService<R> {
    repository: R,
}

impl<R: AppRepository> AppService<R> {
    pub fn new(repository: R) -> (r: Self)
        ensures
            r.repository() == repository,
    {
        AppService { repository }
    }

    pub closed spec fn repository(&self) -> R {
        self.repository
    }

    /// The repository the service works on.
    pub fn repository_ref(&self) -> (r: &R)
        ensures
            *r == self.repository(),
    {
        &self.repository
    }

    /// Stores the record of `value`, made now under `settings`.
    fn store_submission(&mut self, settings: &AppSettings, value: &str) -> (r: Result<
        (),
        ApplicationError,
    >)
        requires
            settings@ == old(self).repository().settings_model(),
        ensures
            r is Ok ==> stores_submission(old(self).repository(), final(self).repository(), value@),
            r matches Err(e) ==> is_storage_failure(e@),
            old(self).repository().submissions_never_fail() ==> r is Ok,
            final(self).repository().submissions_never_fail() == old(
                self,
            ).repository().submissions_never_fail(),
    {
        let created_at = utc_now();
        let millis = decimal_string(unix_millis_of(created_at));
        let id_text = concat3(settings.app_name.as_str(), "-", millis.as_str());
        proof {
            reveal_strlit("-");
            let k = settings.app_name@.len() as int;
            assert(id_text@[k] == '-');
            assert(!is_ws('-'));
        }
        let id = match AppId::new(id_text.as_str()) {
            Ok(id) => id,
            Err(e) => return Err(ApplicationError::Domain(e)),
        };
        let record = submission_record(settings, value, id, created_at);
        let ghost rec = record@;
        let r = self.repository.save_submission(record);
        proof {
            reveal_strlit("submit");
            if r is Ok {
                assert(rec.id == submission_id(settings@.app_name, created_at));
                assert(old(self).repository().records_model().push(rec) == old(
                    self,
                ).repository().records_model().push(rec));
            }
        }
        r
    }

    /// Validates the value and stores it as a new submission record, named
    /// after the application and the current time. A blank value is refused
    /// before anything else; an accepted one fails only where the repository
    /// does.
    pub fn submit(&mut self, payload: SubmissionPayload) -> (r: Result<(), ApplicationError>)
        ensures
            !submission_accepts(payload.value@) ==> (r matches Err(e) && e@
                == ApplicationErrorView::Domain(DomainError::EmptyValue) && final(self).repository()
                == old(self).repository()),
            submission_accepts(payload.value@) ==> (r matches Err(e) ==> is_storage_failure(e@)),
            submission_accepts(payload.value@) && old(self).repository().submissions_never_fail()
                ==> r is Ok,
            r is Ok ==> submission_accepts(payload.value@) && stores_submission(
                old(self).repository(),
                final(self).repository(),
                payload.value@,
            ),
            final(self).repository().submissions_never_fail() == old(
                self,
            ).repository().submissions_never_fail(),
    {
        let trimmed = trim_str(payload.value.as_str());
        proof {
            crate::text::lemma_trim_empty_iff_blank(payload.value@);
        }
        if trimmed.as_str().unicode_len() == 0 {
            return Err(ApplicationError::Domain(DomainError::EmptyValue));
        }
        let settings = self.repository.load_settings()?;
        self.store_submission(&settings, payload.value.as_str())
    }

    /// Runs a named command; only `submit` is known. Its `value` argument
    /// (none counts as empty) is stored as a submission once the settings
    /// are loaded; a blank one is refused.
    pub fn execute_command(&mut self, command: SubmissionCommand) -> (r: Result<
        String,
        ApplicationError,
    >)
        ensures
            command.command@ != "submit"@ ==> (r matches Err(e) && e@
                == ApplicationErrorView::InvalidPayload(
                "nicht unterstützter Befehl: "@ + command.command@,
            ) && final(self).repository() == old(self).repository()),
            command.command@ == "submit"@ && !submission_accepts(command_value(command)) ==> (
            r matches Err(e) && (e@ == ApplicationErrorView::InvalidPayload(
                "Wert darf nicht leer sein"@,
            ) || (is_storage_failure(e@) && !old(self).repository().submissions_never_fail()))
                && final(self).repository() == old(self).repository()),
            command.command@ == "submit"@ && submission_accepts(command_value(command)) ==> (
            r matches Err(e) ==> is_storage_failure(e@)),
            command.command@ == "submit"@ && submission_accepts(command_value(command)) && old(
                self,
            ).repository().submissions_never_fail() ==> r is Ok,
            r matches Ok(m) ==> m@ == "Befehl ausgeführt"@ && command.command@ == "submit"@
                && submission_accepts(command_value(command)) && stores_submission(
                old(self).repository(),
                final(self).repository(),
                command_value(command),
            ),
            final(self).repository().submissions_never_fail() == old(
                self,
            ).repository().submissions_never_fail(),
    {
        if !crate::text::str_eq(command.command.as_str(), "submit") {
            return Err(
                ApplicationError::InvalidPayload(
                    crate::text::concat("nicht unterstützter Befehl: ", command.command.as_str()),
                ),
            );
        }
        let settings = self.repository.load_settings()?;
        let value = match command.value {
            Some(v) => v,
            None => String::new(),
        };
        let trimmed = trim_str(value.as_str());
        proof {
            crate::text::lemma_trim_empty_iff_blank(value@);
        }
        if trimmed.as_str().unicode_len() == 0 {
            return Err(ApplicationError::invalid_payload("Wert darf nicht leer sein"));
        }
        self.store_submission(&settings, value.as_str())?;
        Ok("Befehl ausgeführt".to_owned())
    }

    /// The stored submissions, as the repository lists them.
    pub fn list_records(&self) -> (r: Result<Vec<SubmissionRecord>, ApplicationError>)
        ensures
            r matches Ok(v) ==> record_views(v@) == self.repository().records_model(),
            r matches Err(e) ==> is_storage_failure(e@),
            self.repository().submissions_never_fail() ==> r is Ok,
    {
        self.repository.list_submissions()
    }

    /// The value trimmed, or an error when it is blank.
    pub fn validate_input(&self, value: &str) -> (r: Result<String, ApplicationError>)
        ensures
            match r {
                Ok(v) => !is_blank(value@) && v@ == trim(value@),
                Err(e) => is_blank(value@) && e@ == ApplicationErrorView::InvalidPayload(
                    "Feld erforderlich"@,
                ),
            },
    {
        let trimmed = trim_str(value);
        proof {
            crate::text::lemma_trim_empty_iff_blank(value@);
        }
        if trimmed.as_str().unicode_len() == 0 {
            return Err(ApplicationError::invalid_payload("Feld erforderlich"));
        }
        Ok(trimmed)
    }
}

/// The error for a note that is not in the list.
pub open spec fn note_not_found(id: Seq<char>) -> ApplicationErrorView {
    ApplicationErrorView::InvalidPayload("Notiz "@ + id + " wurde nicht gefunden"@)
}

/// The note with identifier `id` in `notes`, or the not-found error.
pub fn find_note(notes: &Vec<Note>, id: &NoteId) -> (r: Result<Note, ApplicationError>)
    ensures
        match r {
            Ok(n) => index_of_id(views(notes@), id@) >= 0 && n@ == views(notes@)[index_of_id(
                views(notes@),
                id@,
            )],
            Err(e) => index_of_id(views(notes@), id@) == -1 && e@ == note_not_found(id@),
        },
{
    match find_index(notes, id) {
        Some(i) => Ok(notes[i].duplicate()),
        None => Err(ApplicationError::InvalidPayload(concat3("Notiz ", id.as_str(), " wurde nicht gefunden"))),
    }
}

/// The note a creation request describes: a new, unarchived note with the
/// given identifier, the trimmed title and the body, created now.
pub fn draft_note(id: NoteId, title: &str, body: &str, now: Timestamp) -> (r: Result<
    Note,
    ApplicationError,
>)
    ensures
        match r {
            Ok(n) => note_title_outcome(title@) == Ok::<Seq<char>, DomainError>(n@.title)
                && note_body_outcome(body@) == Ok::<Seq<char>, DomainError>(n@.body) && n@.id
                == id@ && n@.created_at == now && n@.updated_at == now && !n@.archived,
            Err(e) => match note_title_outcome(title@) {
                Err(te) => e@ == ApplicationErrorView::Domain(te),
                Ok(_) => match note_body_outcome(body@) {
                    Err(be) => e@ == ApplicationErrorView::Domain(be),
                    Ok(_) => false,
                },
            },
        },
{
    let title = match NoteTitle::new(title) {
        Ok(t) => t,
        Err(e) => return Err(ApplicationError::Domain(e)),
    };
    let body = match NoteBody::new(body) {
        Ok(b) => b,
        Err(e) => return Err(ApplicationError::Domain(e)),
    };
    Ok(Note::new(id, title, body, now))
}

/// The note `id` from `notes`, renamed at `now`.
pub fn renamed_note(notes: &Vec<Note>, id: &NoteId, new_title: &str, now: Timestamp) -> (r: Result<
    Note,
    ApplicationError,
>)
    ensures
        r is Ok ==> note_title_outcome(new_title@) is Ok,
        index_of_id(views(notes@), id@) == -1 ==> (r matches Err(e) && e@ == note_not_found(id@)),
        index_of_id(views(notes@), id@) >= 0 ==> {
            let old_note = views(notes@)[index_of_id(views(notes@), id@)];
            match note_title_outcome(new_title@) {
                Ok(t) => r matches Ok(n) && n@ == (NoteView { title: t, updated_at: now, ..old_note }),
                Err(te) => r matches Err(e) && e@ == ApplicationErrorView::Domain(te),
            }
        },
{
    let mut note = find_note(notes, id)?;
    let title = match NoteTitle::new(new_title) {
        Ok(t) => t,
        Err(e) => return Err(ApplicationError::Domain(e)),
    };
    note.rename(title, now);
    Ok(note)
}

/// The note `id` from `notes`, with a new title and body at `now`.
pub fn edited_note(
    notes: &Vec<Note>,
    id: &NoteId,
    title: &str,
    body: &str,
    now: Timestamp,
) -> (r: Result<Note, ApplicationError>)
    ensures
        r is Ok ==> note_title_outcome(title@) is Ok && note_body_outcome(body@) is Ok,
        index_of_id(views(notes@), id@) == -1 ==> (r matches Err(e) && e@ == note_not_found(id@)),
        index_of_id(views(notes@), id@) >= 0 ==> {
            let old_note = views(notes@)[index_of_id(views(notes@), id@)];
            match (note_title_outcome(title@), note_body_outcome(body@)) {
                (Ok(t), Ok(b)) => r matches Ok(n) && n@ == (NoteView {
                    title: t,
                    body: b,
                    updated_at: now,
                    ..old_note
                }),
                (Err(te), _) => r matches Err(e) && e@ == ApplicationErrorView::Domain(te),
                (Ok(_), Err(be)) => r matches Err(e) && e@ == ApplicationErrorView::Domain(be),
            }
        },
{
    let mut note = find_note(notes, id)?;
    let title = match NoteTitle::new(title) {
        Ok(t) => t,
        Err(e) => return Err(ApplicationError::Domain(e)),
    };
    note.rename(title, now);
    let body = match NoteBody::new(body) {
        Ok(b) => b,
        Err(e) => return Err(ApplicationError::Domain(e)),
    };
    note.set_body(body, now);
    Ok(note)
}

/// The note `id` from `notes`, archived (or brought back) at `now`.
pub fn archival_note(notes: &Vec<Note>, id: &NoteId, archived: bool, now: Timestamp) -> (r: Result<
    Note,
    ApplicationError,
>)
    ensures
        index_of_id(views(notes@), id@) == -1 ==> (r matches Err(e) && e@ == note_not_found(id@)),
        index_of_id(views(notes@), id@) >= 0 ==> (r matches Ok(n) && n@ == (NoteView {
            archived,
            updated_at: now,
            ..views(notes@)[index_of_id(views(notes@), id@)]
        })),
{
    let mut note = find_note(notes, id)?;
    if archived {
        note.archive(now);
    } else {
        note.unarchive(now);
    }
    Ok(note)
}

/// The stored note with identifier `id` in `s` (the first, should there be
/// several).
pub open spec fn stored_note(s: Seq<NoteView>, id: Seq<char>) -> NoteView {
    s[index_of_id(s, id)]
}

/// Whether `after` holds the notes of `before` and one more: the note `id`
/// with the validated `title` and `body`, not archived, last changed when
/// it was created.
pub open spec fn stores_new_note(
    before: Seq<NoteView>,
    after: Seq<NoteView>,
    id: Seq<char>,
    title: Seq<char>,
    body: Seq<char>,
) -> bool {
    exists|n: NoteView|
        {
            &&& n.id == id
            &&& note_title_outcome(title) == Ok::<Seq<char>, DomainError>(n.title)
            &&& note_body_outcome(body) == Ok::<Seq<char>, DomainError>(n.body)
            &&& n.updated_at == n.created_at
            &&& !n.archived
            &&& after.to_multiset() == (#[trigger] before.push(n)).to_multiset()
        }
}

/// Whether `after` holds the notes of `before` with the stored note `id`
/// given the validated `title` and `body` at some instant.
pub open spec fn stores_edited_note(
    before: Seq<NoteView>,
    after: Seq<NoteView>,
    id: Seq<char>,
    title: Seq<char>,
    body: Seq<char>,
) -> bool {
    index_of_id(before, id) >= 0 && exists|n: NoteView|
        {
            &&& note_title_outcome(title) == Ok::<Seq<char>, DomainError>(n.title)
            &&& note_body_outcome(body) == Ok::<Seq<char>, DomainError>(n.body)
            &&& n == (NoteView {
                title: n.title,
                body: n.body,
                updated_at: n.updated_at,
                ..stored_note(before, id)
            })
            &&& after.to_multiset() == (#[trigger] replaced(before, n)).to_multiset()
        }
}

/// Whether `after` holds the notes of `before` with the stored note `id`
/// archived (or brought back) at some instant.
pub open spec fn stores_archival(
    before: Seq<NoteView>,
    after: Seq<NoteView>,
    id: Seq<char>,
    archived: bool,
) -> bool {
    index_of_id(before, id) >= 0 && exists|n: NoteView|
        {
            &&& n == (NoteView { archived, updated_at: n.updated_at, ..stored_note(before, id) })
            &&& after.to_multiset() == (#[trigger] replaced(before, n)).to_multiset()
        }
}

/// Whether `r` is the error `expected` or, unless the repository never
/// fails (`reliable`), a storage failure.
pub open spec fn refused_with<T>(
    r: Result<T, ApplicationError>,
    expected: ApplicationErrorView,
    reliable: bool,
) -> bool {
    r matches Err(e) && (e@ == expected || (!reliable && is_storage_failure(e@)))
}

/// Whether `r` succeeded or, unless the repository never fails
/// (`reliable`), is a storage failure.
pub open spec fn done_unless_storage_fails<T>(r: Result<T, ApplicationError>, reliable: bool) -> bool {
    match r {
        Ok(_) => true,
        Err(e) => !reliable && is_storage_failure(e@),
    }
}

/// Use cases for managing notes: create, rename, edit, archive and delete.
pub struct NoteService<R, C> {
    repository: R,
    clock: C,
}

impl<R: NoteRepository> NoteService<R, SystemClock> {
    /// A service that stamps changes with the system clock.
    pub fn new(repository: R) -> (r: Self)
        ensures
            r.repository() == repository,
    {
        NoteService { repository, clock: SystemClock }
    }
}

impl<R: NoteRepository, C: Clock> NoteService<R, C> {
    pub closed spec fn repository(&self) -> R {
        self.repository
    }

    /// The clock that stamps changes.
    pub closed spec fn clock_spec(&self) -> C {
        self.clock
    }

    /// A service that stamps changes with `clock`.
    pub fn with_clock(repository: R, clock: C) -> (r: Self)
        ensures
            r.repository() == repository,
    {
        NoteService { repository, clock }
    }

    /// The repository the service works on.
    pub fn repository_ref(&self) -> (r: &R)
        ensures
            *r == self.repository(),
    {
        &self.repository
    }

    /// The repository the service works on, for changes.
    pub fn repository_mut(&mut self) -> (r: &mut R)
        ensures
            *r == old(self).repository(),
            final(self).repository() == *final(r),
            final(self).clock_spec() == old(self).clock_spec(),
    {
        &mut self.repository
    }

    /// Creates a note with a fresh identifier and returns that identifier.
    pub fn create_note(&mut self, title: &str, body: &str) -> (r: Result<NoteId, ApplicationError>)
        ensures
            match r {
                Ok(id) => is_hyphenated_uuid(id@) && note_title_outcome(title@) is Ok
                    && note_body_outcome(body@) is Ok,
                Err(e) => match note_title_outcome(title@) {
                    Err(te) => e@ == ApplicationErrorView::Domain(te),
                    Ok(_) => match note_body_outcome(body@) {
                        Err(be) => e@ == ApplicationErrorView::Domain(be),
                        Ok(_) => is_storage_failure(e@),
                    },
                },
            },
            note_title_outcome(title@) is Err || note_body_outcome(body@) is Err
                ==> final(self).repository() == old(self).repository(),
            note_title_outcome(title@) is Ok && note_body_outcome(body@) is Ok
                ==> done_unless_storage_fails(r, old(self).repository().notes_never_fail()),
            final(self).repository().notes_never_fail() == old(self).repository().notes_never_fail(),

            r matches Ok(id) ==> stores_new_note(
                old(self).repository().notes_model(),
                final(self).repository().notes_model(),
                id@,
                title@,
                body@,
            ),
    {
        let created_at = self.clock.now();
        let id_text = new_v7_uuid_text();
        proof {
            lemma_uuid_not_blank(id_text@);
        }
        let id = match NoteId::new(id_text.as_str()) {
            Ok(id) => id,
            Err(e) => return Err(ApplicationError::Domain(e)),
        };
        let note = draft_note(id.duplicate(), title, body, created_at)?;
        let ghost n = note@;
        let r = self.repository.create_note(note);
        match r {
            Ok(()) => {
                assert(old(self).repository().notes_model().push(n) == old(self).repository().notes_model().push(n));
                Ok(id)
            },
            Err(e) => Err(e),
        }
    }

    /// All notes, as the repository lists them.
    pub fn list_notes(&self) -> (r: Result<Vec<Note>, ApplicationError>)
        ensures
            r matches Ok(v) ==> views(v@) == self.repository().notes_model(),
            done_unless_storage_fails(r, self.repository().notes_never_fail()),
    {
        self.repository.list_notes()
    }

    /// The notes that are not archived, in the repository's order.
    pub fn list_active_notes(&self) -> (r: Result<Vec<Note>, ApplicationError>)
        ensures
            r matches Ok(v) ==> forall|i: int| 0 <= i < v@.len() ==> !(#[trigger] v@[i])@.archived,
            r matches Ok(v) ==> views(v@) == active(self.repository().notes_model()),
            done_unless_storage_fails(r, self.repository().notes_never_fail()),
    {
        let notes = self.repository.list_notes()?;
        let active = crate::note_list::active_notes(&notes);
        proof {
            assert forall|i: int| 0 <= i < active@.len() implies !(#[trigger] active@[i])@.archived by {
                views(notes@).lemma_filter_pred(crate::note_list::unarchived(), i);
                assert(views(active@)[i] == active@[i]@);
            }
        }
        Ok(active)
    }

    /// Gives the stored note `id` a new title; an invalid title or an
    /// unknown identifier is refused before anything is stored.
    pub fn rename_note(&mut self, id: &NoteId, new_title: &str) -> (r: Result<(), ApplicationError>)
        ensures
            note_title_outcome(new_title@) is Err ==> r is Err && final(self).repository() == old(self).repository(),
            index_of_id(old(self).repository().notes_model(), id@) == -1 ==> refused_with(
                r,
                note_not_found(id@),
                old(self).repository().notes_never_fail(),
            ) && final(self).repository() == old(self).repository(),
            (index_of_id(old(self).repository().notes_model(), id@) >= 0 && note_title_outcome(
                new_title@,
            ) is Err) ==> refused_with(
                r,
                ApplicationErrorView::Domain(note_title_outcome(new_title@)->Err_0),
                old(self).repository().notes_never_fail(),
            ),
            (index_of_id(old(self).repository().notes_model(), id@) >= 0 && note_title_outcome(
                new_title@,
            ) is Ok) ==> done_unless_storage_fails(r, old(self).repository().notes_never_fail()),
            final(self).repository().notes_never_fail() == old(self).repository().notes_never_fail(),
            r is Ok ==> index_of_id(old(self).repository().notes_model(), id@) >= 0 && exists|
                n: NoteView,
            |
                {
                    &&& note_title_outcome(new_title@) == Ok::<Seq<char>, DomainError>(n.title)
                    &&& n == (NoteView {
                        title: n.title,
                        updated_at: n.updated_at,
                        ..stored_note(old(self).repository().notes_model(), id@)
                    })
                    &&& final(self).repository().notes_model().to_multiset() == (#[trigger] replaced(
                        old(self).repository().notes_model(),
                        n,
                    )).to_multiset()
                },
    {
        let notes = self.repository.list_notes()?;
        let now = self.clock.now();
        let note = renamed_note(&notes, id, new_title, now)?;
        let ghost n = note@;
        let r = self.repository.update_note(note);
        proof {
            let m = old(self).repository().notes_model();
            crate::note_list::lemma_index_of_id_range(m, id@);
        }
        r
    }

    /// Gives the stored note `id` a new title and body; an invalid title or
    /// body or an unknown identifier is refused before anything is stored.
    pub fn update_note(&mut self, id: &NoteId, title: &str, body: &str) -> (r: Result<
        (),
        ApplicationError,
    >)
        ensures
            note_title_outcome(title@) is Err || note_body_outcome(body@) is Err ==> r is Err
                && final(self).repository() == old(self).repository(),
            index_of_id(old(self).repository().notes_model(), id@) == -1 ==> refused_with(
                r,
                note_not_found(id@),
                old(self).repository().notes_never_fail(),
            ) && final(self).repository() == old(self).repository(),
            (index_of_id(old(self).repository().notes_model(), id@) >= 0 && note_title_outcome(title@)
                is Err) ==> refused_with(
                r,
                ApplicationErrorView::Domain(note_title_outcome(title@)->Err_0),
                old(self).repository().notes_never_fail(),
            ),
            (index_of_id(old(self).repository().notes_model(), id@) >= 0 && note_title_outcome(title@)
                is Ok && note_body_outcome(body@) is Err) ==> refused_with(
                r,
                ApplicationErrorView::Domain(note_body_outcome(body@)->Err_0),
                old(self).repository().notes_never_fail(),
            ),
            (index_of_id(old(self).repository().notes_model(), id@) >= 0 && note_title_outcome(title@)
                is Ok && note_body_outcome(body@) is Ok) ==> done_unless_storage_fails(
                r,
                old(self).repository().notes_never_fail(),
            ),
            final(self).repository().notes_never_fail() == old(self).repository().notes_never_fail(),

            r is Ok ==> stores_edited_note(
                old(self).repository().notes_model(),
                final(self).repository().notes_model(),
                id@,
                title@,
                body@,
            ),
    {
        let notes = self.repository.list_notes()?;
        let now = self.clock.now();
        let note = edited_note(&notes, id, title, body, now)?;
        let ghost n = note@;
        let r = self.repository.update_note(note);
        proof {
            let m = old(self).repository().notes_model();
            crate::note_list::lemma_index_of_id_range(m, id@);
        }
        r
    }

    /// Archives the stored note `id`; an unknown identifier is refused
    /// before anything is stored.
    pub fn archive_note(&mut self, id: &NoteId) -> (r: Result<(), ApplicationError>)
        ensures
            index_of_id(old(self).repository().notes_model(), id@) == -1 ==> refused_with(
                r,
                note_not_found(id@),
                old(self).repository().notes_never_fail(),
            ) && final(self).repository() == old(self).repository(),
            index_of_id(old(self).repository().notes_model(), id@) >= 0 ==> done_unless_storage_fails(
                r,
                old(self).repository().notes_never_fail(),
            ),
            final(self).repository().notes_never_fail() == old(self).repository().notes_never_fail(),
            r is Ok ==> stores_archival(
                old(self).repository().notes_model(),
                final(self).repository().notes_model(),
                id@,
                true,
            ),
    {
        let notes = self.repository.list_notes()?;
        let now = self.clock.now();
        let note = archival_note(&notes, id, true, now)?;
        let ghost n = note@;
        let r = self.repository.update_note(note);
        proof {
            let m = old(self).repository().notes_model();
            crate::note_list::lemma_index_of_id_range(m, id@);
        }
        r
    }

    /// Brings back the stored note `id`; an unknown identifier is refused
    /// before anything is stored.
    pub fn unarchive_note(&mut self, id: &NoteId) -> (r: Result<(), ApplicationError>)
        ensures
            index_of_id(old(self).repository().notes_model(), id@) == -1 ==> refused_with(
                r,
                note_not_found(id@),
                old(self).repository().notes_never_fail(),
            ) && final(self).repository() == old(self).repository(),
            index_of_id(old(self).repository().notes_model(), id@) >= 0 ==> done_unless_storage_fails(
                r,
                old(self).repository().notes_never_fail(),
            ),
            final(self).repository().notes_never_fail() == old(self).repository().notes_never_fail(),
            r is Ok ==> stores_archival(
                old(self).repository().notes_model(),
                final(self).repository().notes_model(),
                id@,
                false,
            ),
    {
        let notes = self.repository.list_notes()?;
        let now = self.clock.now();
        let note = archival_note(&notes, id, false, now)?;
        let ghost n = note@;
        let r = self.repository.update_note(note);
        proof {
            let m = old(self).repository().notes_model();
            crate::note_list::lemma_index_of_id_range(m, id@);
        }
        r
    }

    /// Forgets the stored note `id`; what the repository refuses it reports.
    pub fn delete_note(&mut self, id: &NoteId) -> (r: Result<(), ApplicationError>)
        ensures
            r is Ok ==> final(self).repository().notes_model().to_multiset() == without_id(
                old(self).repository().notes_model(),
                id@,
            ).to_multiset(),
            done_unless_storage_fails(r, old(self).repository().notes_never_fail()),
            final(self).repository().notes_never_fail() == old(self).repository().notes_never_fail(),
    {
        self.repository.delete_note(id)
    }
}

} // verus!
