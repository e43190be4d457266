//! An in-memory repository that keeps settings, submissions and notes, and
//! the versioned document that persistent repositories store.
use crate::domain::{
    default_settings, AppSettings, AppSettingsView, Note, NoteId, NoteView, SubmissionRecord,
    SubmissionRecordView,
};
use crate::note_list::{copy_notes, remove_note, replace_note, replaced, views, without_id};
use crate::service::{AppRepository, AppService, NoteRepository, UserDataRepository};
use crate::state::ApplicationError;
use vstd::prelude::*;

verus! {

/// The submissions of a list, as mathematical values.
pub open spec fn record_views(records: Seq<SubmissionRecord>) -> Seq<SubmissionRecordView> {
    records.map_values(|r: SubmissionRecord| r@)
}

/// A copy of a list of submissions.
pub fn copy_records(records: &Vec<SubmissionRecord>) -> (r: Vec<SubmissionRecord>)
    ensures
        record_views(r@) == record_views(records@),
{
    let ghost s = record_views(records@);
    let mut out: Vec<SubmissionRecord> = Vec::new();
    let mut i: usize = 0;
    while i < records.len()
        invariant
            s == record_views(records@),
            i <= records@.len(),
            record_views(out@) == s.subrange(0, i as int),
        decreases records@.len() - i,
    {
        let ghost before = record_views(out@);
        let d = records[i].duplicate();
        out.push(d);
        assert(record_views(out@) =~= before.push(s[i as int]));
        assert(record_views(out@) =~= s.subrange(0, i + 1));
        i = i + 1;
    }
    assert(s.subrange(0, s.len() as int) =~= s);
    out
}

/// Where the in-memory repository says a backup went.
pub open spec fn memory_backup_location() -> Seq<char> {
    "memory://backup"@
}

/// Settings, submissions and notes held in memory only.
#[derive(Debug)]
pub struct MemoryRepository {
    settings: AppSettings,
    records: Vec<SubmissionRecord>,
    notes: Vec<Note>,
}

impl MemoryRepository {
    pub closed spec fn settings_view(&self) -> AppSettingsView {
        self.settings@
    }

    pub closed spec fn records_view(&self) -> Seq<SubmissionRecordView> {
        record_views(self.records@)
    }

    pub closed spec fn notes_view(&self) -> Seq<NoteView> {
        views(self.notes@)
    }

    /// An empty repository with the default settings.
    pub fn with_default_settings() -> (r: Self)
        ensures
            r.settings_view() == default_settings(),
            r.records_view() == Seq::<SubmissionRecordView>::empty(),
            r.notes_view() == Seq::<NoteView>::empty(),
    {
        let r = MemoryRepository {
            settings: AppSettings::default(),
            records: Vec::new(),
            notes: Vec::new(),
        };
        assert(r.records_view() =~= Seq::<SubmissionRecordView>::empty());
        assert(r.notes_view() =~= Seq::<NoteView>::empty());
        r
    }

    /// A copy with the same contents.
    pub fn duplicate(&self) -> (r: Self)
        ensures
            r.settings_view() == self.settings_view(),
            r.records_view() == self.records_view(),
            r.notes_view() == self.notes_view(),
    {
        MemoryRepository {
            settings: self.settings.duplicate(),
            records: copy_records(&self.records),
            notes: copy_notes(&self.notes),
        }
    }

    /// A submission service working on a copy of this repository.
    pub fn build_service(&self) -> (r: AppService<Self>)
        ensures
            r.repository().settings_view() == self.settings_view(),
            r.repository().records_view() == self.records_view(),
            r.repository().notes_view() == self.notes_view(),
    {
        AppService::new(self.duplicate())
    }
}

impl Clone for MemoryRepository {
    fn clone(&self) -> (r: Self)
        ensures
            r.settings_view() == self.settings_view(),
            r.records_view() == self.records_view(),
            r.notes_view() == self.notes_view(),
    {
        self.duplicate()
    }
}

impl Default for MemoryRepository {
    fn default() -> (r: Self)
        ensures
            r.settings_view() == default_settings(),
            r.records_view() == Seq::<SubmissionRecordView>::empty(),
            r.notes_view() == Seq::<NoteView>::empty(),
    {
        MemoryRepository::with_default_settings()
    }
}

impl AppRepository for MemoryRepository {
    open spec fn settings_model(&self) -> AppSettingsView {
        self.settings_view()
    }

    open spec fn records_model(&self) -> Seq<SubmissionRecordView> {
        self.records_view()
    }

    open spec fn submissions_never_fail(&self) -> bool {
        true
    }

    fn load_settings(&self) -> (r: Result<AppSettings, ApplicationError>)
        ensures
            r matches Ok(s) && s@ == self.settings_view(),
    {
        Ok(self.settings.duplicate())
    }

    fn save_settings(&mut self, settings: AppSettings) -> (r: Result<(), ApplicationError>)
        ensures
            r is Ok,
            final(self).settings_view() == settings@,
            final(self).records_view() == old(self).records_view(),
            final(self).notes_view() == old(self).notes_view(),
    {
        self.settings = settings;
        Ok(())
    }

    fn save_submission(&mut self, submission: SubmissionRecord) -> (r: Result<(), ApplicationError>)
        ensures
            r is Ok,
            final(self).settings_view() == old(self).settings_view(),
            final(self).records_view() == old(self).records_view().push(submission@),
            final(self).notes_view() == old(self).notes_view(),
    {
        let ghost before = self.records_view();
        let ghost sv = submission@;
        self.records.push(submission);
        assert(self.records_view() =~= before.push(sv));
        Ok(())
    }

    fn list_submissions(&self) -> (r: Result<Vec<SubmissionRecord>, ApplicationError>)
        ensures
            r matches Ok(v) && record_views(v@) == self.records_view(),
    {
        Ok(copy_records(&self.records))
    }
}

impl NoteRepository for MemoryRepository {
    open spec fn notes_model(&self) -> Seq<NoteView> {
        self.notes_view()
    }

    open spec fn notes_never_fail(&self) -> bool {
        true
    }

    fn create_note(&mut self, note: Note) -> (r: Result<(), ApplicationError>)
        ensures
            r is Ok,
            final(self).settings_view() == old(self).settings_view(),
            final(self).records_view() == old(self).records_view(),
            final(self).notes_view() == old(self).notes_view().push(note@),
    {
        let ghost before = self.notes_view();
        let ghost nv = note@;
        self.notes.push(note);
        assert(self.notes_view() =~= before.push(nv));
        Ok(())
    }

    fn list_notes(&self) -> (r: Result<Vec<Note>, ApplicationError>)
        ensures
            r matches Ok(v) && views(v@) == self.notes_view(),
    {
        Ok(copy_notes(&self.notes))
    }

    fn update_note(&mut self, note: Note) -> (r: Result<(), ApplicationError>)
        ensures
            r is Ok,
            final(self).settings_view() == old(self).settings_view(),
            final(self).records_view() == old(self).records_view(),
            final(self).notes_view() == replaced(old(self).notes_view(), note@),
    {
        replace_note(&mut self.notes, note);
        Ok(())
    }

    fn delete_note(&mut self, id: &NoteId) -> (r: Result<(), ApplicationError>)
        ensures
            r is Ok,
            final(self).settings_view() == old(self).settings_view(),
            final(self).records_view() == old(self).records_view(),
            final(self).notes_view() == without_id(old(self).notes_view(), id@),
    {
        remove_note(&mut self.notes, id);
        Ok(())
    }
}

impl UserDataRepository for MemoryRepository {
    fn create_backup(&mut self) -> (r: Result<String, ApplicationError>)
        ensures
            r matches Ok(p) && p@ == memory_backup_location(),
            final(self).settings_view() == old(self).settings_view(),
            final(self).records_view() == old(self).records_view(),
            final(self).notes_view() == old(self).notes_view(),
    {
        Ok("memory://backup".to_owned())
    }

    fn reset_user_data(&mut self) -> (r: Result<(), ApplicationError>)
        ensures
            r is Ok,
            final(self).settings_view() == old(self).settings_view(),
            final(self).records_view() == Seq::<SubmissionRecordView>::empty(),
            final(self).notes_view() == Seq::<NoteView>::empty(),
    {
        self.records = Vec::new();
        self.notes = Vec::new();
        assert(self.records_view() =~= Seq::<SubmissionRecordView>::empty());
        assert(self.notes_view() =~= Seq::<NoteView>::empty());
        Ok(())
    }
}

/// The repository the application starts with: in memory, default settings.
pub fn initialize_repository() -> (r: MemoryRepository)
    ensures
        r.settings_view() == default_settings(),
        r.records_view() == Seq::<SubmissionRecordView>::empty(),
        r.notes_view() == Seq::<NoteView>::empty(),
{
    MemoryRepository::with_default_settings()
}

/// How a flag is stored in an integer column.
pub fn bool_to_i64(value: bool) -> (r: i64)
    ensures
        r == (if value { 1i64 } else { 0i64 }),
{
    if value {
        1
    } else {
        0
    }
}

/// Current version of the persisted document's schema.
pub const CURRENT_SCHEMA_VERSION: u32 = 1;

/// The single versioned document in which persistent repositories keep
/// settings, submissions and notes.
#[derive(Debug)]
pub struct PersistedData {
    pub version: u32,
    pub settings: AppSettings,
    pub submissions: Vec<SubmissionRecord>,
    pub notes: Vec<Note>,
}

impl Default for PersistedData {
    fn default() -> (r: Self)
        ensures
            r.version == CURRENT_SCHEMA_VERSION,
            r.settings@ == default_settings(),
            r.submissions@.len() == 0,
            r.notes@.len() == 0,
    {
        PersistedData {
            version: CURRENT_SCHEMA_VERSION,
            settings: AppSettings::default(),
            submissions: Vec::new(),
            notes: Vec::new(),
        }
    }
}

impl PersistedData {
    /// Brings a document of an older schema version up to the current one;
    /// documents at or above the current version are left as they are.
    pub fn migrate(&mut self)
        ensures
            final(self).version == (if old(self).version < CURRENT_SCHEMA_VERSION {
                CURRENT_SCHEMA_VERSION
            } else {
                old(self).version
            }),
            final(self).settings@ == old(self).settings@,
            final(self).submissions@ == old(self).submissions@,
            final(self).notes@ == old(self).notes@,
    {
        if self.version < CURRENT_SCHEMA_VERSION {
            self.version = CURRENT_SCHEMA_VERSION;
        }
    }
}

} // verus!
