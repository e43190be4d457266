//! Domain values and entities: identifiers, note parts, notes, settings and
//! submission records, each with the rules that decide when it is valid.
use crate::text::{is_blank, trim, trim_str};
use crate::system::Timestamp;
use vstd::prelude::*;

verus! {

/// Maximum length (in characters) allowed for a note title.
pub const NOTE_TITLE_MAX_LEN: usize = 200;

/// Maximum length (in characters) allowed for a note body.
pub const NOTE_BODY_MAX_LEN: usize = 8192;

/// Why a domain value was refused.
#[derive(Debug, Clone, Copy, PartialEq, Eq, Structural)]
pub enum DomainError {
    InvalidAppId,
    InvalidState,
    EmptyValue,
    InvalidNoteId,
    InvalidNoteTitle,
    NoteTitleTooLong,
    NoteBodyTooLong,
}

impl DomainError {
    /// The human-readable text of the error.
    pub open spec fn message(self) -> Seq<char> {
        match self {
            DomainError::InvalidAppId => "invalid app identifier"@,
            DomainError::InvalidState => "operation is not allowed in the current state"@,
            DomainError::EmptyValue => "Wert darf nicht leer sein"@,
            DomainError::InvalidNoteId => "Notiz-ID darf nicht leer sein"@,
            DomainError::InvalidNoteTitle => "Notiztitel darf nicht leer sein"@,
            DomainError::NoteTitleTooLong => "Notiztitel überschreitet 200 Zeichen"@,
            DomainError::NoteBodyTooLong => "Notizinhalt überschreitet 8192 Zeichen"@,
        }
    }

    /// The human-readable text of the error.
    pub fn to_string(&self) -> (s: String)
        ensures
            s@ == self.message(),
    {
        let text = match self {
            DomainError::InvalidAppId => "invalid app identifier",
            DomainError::InvalidState => "operation is not allowed in the current state",
            DomainError::EmptyValue => "Wert darf nicht leer sein",
            DomainError::InvalidNoteId => "Notiz-ID darf nicht leer sein",
            DomainError::InvalidNoteTitle => "Notiztitel darf nicht leer sein",
            DomainError::NoteTitleTooLong => "Notiztitel überschreitet 200 Zeichen",
            DomainError::NoteBodyTooLong => "Notizinhalt überschreitet 8192 Zeichen",
        };
        text.to_owned()
    }
}

/// Identifier of an application record; never blank.
#[derive(Debug, PartialEq, Eq)]
pub struct AppId(String);

impl View for AppId {
    type V = Seq<char>;

    closed spec fn view(&self) -> Seq<char> {
        self.0@
    }
}

impl Clone for AppId {
    fn clone(&self) -> (r: Self)
        ensures
            r@ == self@,
    {
        self.duplicate()
    }
}

impl AppId {
    /// Accepts any value that is not blank, unchanged.
    pub fn new(value: &str) -> (r: Result<Self, DomainError>)
        ensures
            r is Ok <==> !is_blank(value@),
            r matches Err(e) ==> e == DomainError::InvalidAppId,
            r matches Ok(id) ==> id@ == value@,
    {
        let trimmed = trim_str(value);
        proof {
            crate::text::lemma_trim_empty_iff_blank(value@);
        }
        if trimmed.unicode_len() == 0 {
            return Err(DomainError::InvalidAppId);
        }
        Ok(AppId(value.to_owned()))
    }

    pub fn as_str(&self) -> (r: &str)
        ensures
            r@ == self@,
    {
        self.0.as_str()
    }

    /// A copy with the same text.
    pub fn duplicate(&self) -> (r: Self)
        ensures
            r@ == self@,
    {
        AppId(self.0.clone())
    }
}

/// Identifier of a note; never blank.
#[derive(Debug, PartialEq, Eq)]
pub struct NoteId(String);

impl View for NoteId {
    type V = Seq<char>;

    closed spec fn view(&self) -> Seq<char> {
        self.0@
    }
}

impl Clone for NoteId {
    fn clone(&self) -> (r: Self)
        ensures
            r@ == self@,
    {
        self.duplicate()
    }
}

impl NoteId {
    /// Accepts any value that is not blank, unchanged.
    pub fn new(value: &str) -> (r: Result<Self, DomainError>)
        ensures
            r is Ok <==> !is_blank(value@),
            r matches Err(e) ==> e == DomainError::InvalidNoteId,
            r matches Ok(id) ==> id@ == value@,
    {
        let trimmed = trim_str(value);
        proof {
            crate::text::lemma_trim_empty_iff_blank(value@);
        }
        if trimmed.unicode_len() == 0 {
            return Err(DomainError::InvalidNoteId);
        }
        Ok(NoteId(value.to_owned()))
    }

    pub fn as_str(&self) -> (r: &str)
        ensures
            r@ == self@,
    {
        self.0.as_str()
    }

    /// A copy with the same text.
    pub fn duplicate(&self) -> (r: Self)
        ensures
            r@ == self@,
    {
        NoteId(self.0.clone())
    }

    /// Whether both identifiers hold the same text.
    pub fn same_as(&self, other: &NoteId) -> (r: bool)
        ensures
            r == (self@ == other@),
    {
        self.0 == other.0
    }
}

/// The outcome that the title rules give for a raw value: the value is
/// trimmed; an empty result is refused, as is one longer than 200 characters.
pub open spec fn note_title_outcome(value: Seq<char>) -> Result<Seq<char>, DomainError> {
    let t = trim(value);
    if t.len() == 0 {
        Err(DomainError::InvalidNoteTitle)
    } else if t.len() > NOTE_TITLE_MAX_LEN {
        Err(DomainError::NoteTitleTooLong)
    } else {
        Ok(t)
    }
}

/// The outcome that the body rules give for a raw value: any value of at
/// most 8192 characters, empty included, is kept unchanged.
pub open spec fn note_body_outcome(value: Seq<char>) -> Result<Seq<char>, DomainError> {
    if value.len() > NOTE_BODY_MAX_LEN {
        Err(DomainError::NoteBodyTooLong)
    } else {
        Ok(value)
    }
}

/// Title of a note: trimmed, non-empty, at most 200 characters.
#[derive(Debug, PartialEq, Eq)]
pub struct NoteTitle(String);

impl View for NoteTitle {
    type V = Seq<char>;

    closed spec fn view(&self) -> Seq<char> {
        self.0@
    }
}

impl Clone for NoteTitle {
    fn clone(&self) -> (r: Self)
        ensures
            r@ == self@,
    {
        self.duplicate()
    }
}

impl NoteTitle {
    pub fn new(value: &str) -> (r: Result<Self, DomainError>)
        ensures
            match r {
                Ok(t) => note_title_outcome(value@) == Ok::<Seq<char>, DomainError>(t@),
                Err(e) => note_title_outcome(value@) == Err::<Seq<char>, DomainError>(e),
            },
    {
        let trimmed = trim_str(value);
        let n = trimmed.as_str().unicode_len();
        if n == 0 {
            return Err(DomainError::InvalidNoteTitle);
        }
        if n > NOTE_TITLE_MAX_LEN {
            return Err(DomainError::NoteTitleTooLong);
        }
        Ok(NoteTitle(trimmed))
    }

    pub fn as_str(&self) -> (r: &str)
        ensures
            r@ == self@,
    {
        self.0.as_str()
    }

    /// A copy with the same text.
    pub fn duplicate(&self) -> (r: Self)
        ensures
            r@ == self@,
    {
        NoteTitle(self.0.clone())
    }
}

/// Body of a note: at most 8192 characters, possibly empty.
#[derive(Debug, PartialEq, Eq)]
pub struct NoteBody(String);

impl View for NoteBody {
    type V = Seq<char>;

    closed spec fn view(&self) -> Seq<char> {
        self.0@
    }
}

impl Clone for NoteBody {
    fn clone(&self) -> (r: Self)
        ensures
            r@ == self@,
    {
        self.duplicate()
    }
}

impl NoteBody {
    pub fn new(value: &str) -> (r: Result<Self, DomainError>)
        ensures
            match r {
                Ok(b) => note_body_outcome(value@) == Ok::<Seq<char>, DomainError>(b@),
                Err(e) => note_body_outcome(value@) == Err::<Seq<char>, DomainError>(e),
            },
    {
        if value.unicode_len() > NOTE_BODY_MAX_LEN {
            return Err(DomainError::NoteBodyTooLong);
        }
        Ok(NoteBody(value.to_owned()))
    }

    pub fn as_str(&self) -> (r: &str)
        ensures
            r@ == self@,
    {
        self.0.as_str()
    }

    /// A copy with the same text.
    pub fn duplicate(&self) -> (r: Self)
        ensures
            r@ == self@,
    {
        NoteBody(self.0.clone())
    }
}

/// What a note holds, as mathematical values.
pub struct NoteView {
    pub id: Seq<char>,
    pub title: Seq<char>,
    pub body: Seq<char>,
    pub created_at: Timestamp,
    pub updated_at: Timestamp,
    pub archived: bool,
}

/// A persisted user note with its own lifecycle: creation, rename, body
/// edits and archival, each of which records when it happened.
#[derive(Debug, PartialEq, Eq)]
pub struct Note {
    id: NoteId,
    title: NoteTitle,
    body: NoteBody,
    created_at: Timestamp,
    updated_at: Timestamp,
    archived: bool,
}

impl View for Note {
    type V = NoteView;

    closed spec fn view(&self) -> NoteView {
        NoteView {
            id: self.id@,
            title: self.title@,
            body: self.body@,
            created_at: self.created_at,
            updated_at: self.updated_at,
            archived: self.archived,
        }
    }
}

impl Note {
    /// A fresh, unarchived note, last updated when it was created.
    pub fn new(id: NoteId, title: NoteTitle, body: NoteBody, created_at: Timestamp) -> (r: Self)
        ensures
            r@ == (NoteView {
                id: id@,
                title: title@,
                body: body@,
                created_at,
                updated_at: created_at,
                archived: false,
            }),
    {
        Note { id, title, body, created_at, updated_at: created_at, archived: false }
    }

    /// A note as it was stored.
    pub fn from_persisted(
        id: NoteId,
        title: NoteTitle,
        body: NoteBody,
        created_at: Timestamp,
        updated_at: Timestamp,
        archived: bool,
    ) -> (r: Self)
        ensures
            r@ == (NoteView {
                id: id@,
                title: title@,
                body: body@,
                created_at,
                updated_at,
                archived,
            }),
    {
        Note { id, title, body, created_at, updated_at, archived }
    }

    pub fn id(&self) -> (r: &NoteId)
        ensures
            r@ == self@.id,
    {
        &self.id
    }

    pub fn title(&self) -> (r: &NoteTitle)
        ensures
            r@ == self@.title,
    {
        &self.title
    }

    pub fn body(&self) -> (r: &NoteBody)
        ensures
            r@ == self@.body,
    {
        &self.body
    }

    pub fn created_at(&self) -> (r: Timestamp)
        ensures
            r == self@.created_at,
    {
        self.created_at
    }

    pub fn updated_at(&self) -> (r: Timestamp)
        ensures
            r == self@.updated_at,
    {
        self.updated_at
    }

    pub fn is_archived(&self) -> (r: bool)
        ensures
            r == self@.archived,
    {
        self.archived
    }

    pub fn rename(&mut self, title: NoteTitle, at: Timestamp)
        ensures
            final(self)@ == (NoteView { title: title@, updated_at: at, ..old(self)@ }),
    {
        self.title = title;
        self.updated_at = at;
    }

    pub fn set_body(&mut self, body: NoteBody, at: Timestamp)
        ensures
            final(self)@ == (NoteView { body: body@, updated_at: at, ..old(self)@ }),
    {
        self.body = body;
        self.updated_at = at;
    }

    pub fn archive(&mut self, at: Timestamp)
        ensures
            final(self)@ == (NoteView { archived: true, updated_at: at, ..old(self)@ }),
    {
        self.archived = true;
        self.updated_at = at;
    }

    pub fn unarchive(&mut self, at: Timestamp)
        ensures
            final(self)@ == (NoteView { archived: false, updated_at: at, ..old(self)@ }),
    {
        self.archived = false;
        self.updated_at = at;
    }

    /// A copy with the same contents.
    pub fn duplicate(&self) -> (r: Self)
        ensures
            r@ == self@,
    {
        Note {
            id: self.id.duplicate(),
            title: self.title.duplicate(),
            body: self.body.duplicate(),
            created_at: self.created_at,
            updated_at: self.updated_at,
            archived: self.archived,
        }
    }
}

impl Clone for AppSettings {
    fn clone(&self) -> (r: Self)
        ensures
            r@ == self@,
    {
        self.duplicate()
    }
}

impl Clone for Note {
    fn clone(&self) -> (r: Self)
        ensures
            r@ == self@,
    {
        self.duplicate()
    }
}

/// Persisted application settings.
#[derive(Debug, PartialEq, Eq)]
pub struct AppSettings {
    pub app_name: String,
    pub server_url: String,
    pub enabled: bool,
    pub theme_mode: String,
}

/// Settings as mathematical values.
pub struct AppSettingsView {
    pub app_name: Seq<char>,
    pub server_url: Seq<char>,
    pub enabled: bool,
    pub theme_mode: Seq<char>,
}

impl View for AppSettings {
    type V = AppSettingsView;

    open spec fn view(&self) -> AppSettingsView {
        AppSettingsView {
            app_name: self.app_name@,
            server_url: self.server_url@,
            enabled: self.enabled,
            theme_mode: self.theme_mode@,
        }
    }
}

/// The settings a new installation starts with.
pub open spec fn default_settings() -> AppSettingsView {
    AppSettingsView {
        app_name: "Slint Agent Demo"@,
        server_url: "https://example.internal"@,
        enabled: true,
        theme_mode: "system"@,
    }
}

/// The settings of the example application, under their earlier name.
pub type ExampleSettings = AppSettings;

impl Default for AppSettings {
    fn default() -> (r: Self)
        ensures
            r@ == default_settings(),
    {
        AppSettings {
            app_name: "Slint Agent Demo".to_owned(),
            server_url: "https://example.internal".to_owned(),
            enabled: true,
            theme_mode: "system".to_owned(),
        }
    }
}

impl AppSettings {
    /// A copy with the same contents.
    pub fn duplicate(&self) -> (r: Self)
        ensures
            r@ == self@,
    {
        AppSettings {
            app_name: self.app_name.clone(),
            server_url: self.server_url.clone(),
            enabled: self.enabled,
            theme_mode: self.theme_mode.clone(),
        }
    }
}

/// One accepted submission.
#[derive(Debug, PartialEq, Eq)]
pub struct SubmissionRecord {
    pub id: AppId,
    pub title: String,
    pub description: String,
    pub created_at: Timestamp,
    pub active: bool,
}

/// A submission record as mathematical values.
pub struct SubmissionRecordView {
    pub id: Seq<char>,
    pub title: Seq<char>,
    pub description: Seq<char>,
    pub created_at: Timestamp,
    pub active: bool,
}

impl View for SubmissionRecord {
    type V = SubmissionRecordView;

    open spec fn view(&self) -> SubmissionRecordView {
        SubmissionRecordView {
            id: self.id@,
            title: self.title@,
            description: self.description@,
            created_at: self.created_at,
            active: self.active,
        }
    }
}

/// A submission record, under its earlier name.
pub type ExampleRecord = SubmissionRecord;

impl SubmissionRecord {
    /// A copy with the same contents.
    pub fn duplicate(&self) -> (r: Self)
        ensures
            r@ == self@,
    {
        SubmissionRecord {
            id: self.id.duplicate(),
            title: self.title.clone(),
            description: self.description.clone(),
            created_at: self.created_at,
            active: self.active,
        }
    }
}

impl Clone for SubmissionRecord {
    fn clone(&self) -> (r: Self)
        ensures
            r@ == self@,
    {
        self.duplicate()
    }
}

/// Where the application is in handling the user's request.
#[derive(Debug, Clone, Copy, PartialEq, Eq, Structural)]
pub enum AppStatus {
    Ready,
    Busy,
    Success,
    Error,
}

/// The screen that is in front.
#[derive(Debug, Clone, Copy, PartialEq, Eq, Structural)]
pub enum AppScreen {
    Main,
    About,
    Settings,
}

/// A point-in-time summary of what the application shows.
#[derive(Debug, PartialEq, Eq)]
pub struct AppStateSnapshot {
    pub screen: String,
    pub status: String,
    pub busy: bool,
    pub last_updated: Timestamp,
}

impl AppStateSnapshot {
    /// The main screen, ready and idle, stamped with the current time.
    pub fn ready() -> (r: Self)
        ensures
            r.screen@ == "main"@,
            r.status@ == "ready"@,
            !r.busy,
    {
        AppStateSnapshot {
            screen: "main".to_owned(),
            status: "ready".to_owned(),
            busy: false,
            last_updated: crate::system::utc_now(),
        }
    }
}

} // verus!
