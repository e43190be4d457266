//! The canonical application state and the pure reducer that applies user
//! actions and submission events to it.
use crate::domain::{AppScreen, AppStatus, DomainError};
use crate::text::{has_char, is_blank, trim, trim_str, concat};
use vstd::prelude::*;

verus! {

/// Maximum length, in bytes of UTF-8, of the main input and of a file path.
pub const MAX_TEXT_LEN: usize = 4096;

/// The class of an application error, for machine-readable reporting.
#[derive(Debug, Clone, Copy, PartialEq, Eq, Structural)]
pub enum ErrorKind {
    Domain,
    Repository,
    InvalidPayload,
    DataRecoveryRequired,
}

impl ErrorKind {
    pub open spec fn code_spec(self) -> Seq<char> {
        match self {
            ErrorKind::Domain => "domain_error"@,
            ErrorKind::Repository => "repository_error"@,
            ErrorKind::InvalidPayload => "invalid_payload"@,
            ErrorKind::DataRecoveryRequired => "data_recovery_required"@,
        }
    }

    /// The stable machine-readable code of this class.
    pub fn code(&self) -> (r: &'static str)
        ensures
            r@ == self.code_spec(),
    {
        match self {
            ErrorKind::Domain => "domain_error",
            ErrorKind::Repository => "repository_error",
            ErrorKind::InvalidPayload => "invalid_payload",
            ErrorKind::DataRecoveryRequired => "data_recovery_required",
        }
    }

    pub open spec fn user_message_spec(self) -> Seq<char> {
        match self {
            ErrorKind::Domain => "Die Eingabe ist ungültig."@,
            ErrorKind::Repository => "Die Daten konnten nicht gespeichert werden."@,
            ErrorKind::InvalidPayload => "Die Eingabe konnte nicht verarbeitet werden."@,
            ErrorKind::DataRecoveryRequired => "Die gespeicherten Daten müssen wiederhergestellt werden."@,
        }
    }

    /// The text shown to the user for an error of this class.
    pub fn user_message(&self) -> (r: &'static str)
        ensures
            r@ == self.user_message_spec(),
    {
        match self {
            ErrorKind::Domain => "Die Eingabe ist ungültig.",
            ErrorKind::Repository => "Die Daten konnten nicht gespeichert werden.",
            ErrorKind::InvalidPayload => "Die Eingabe konnte nicht verarbeitet werden.",
            ErrorKind::DataRecoveryRequired => "Die gespeicherten Daten müssen wiederhergestellt werden.",
        }
    }
}

/// An error of the application layer.
#[derive(Debug)]
pub enum ApplicationError {
    Domain(DomainError),
    Repository(String),
    InvalidPayload(String),
    DataRecoveryRequired(String),
}

/// An application error as a mathematical value.
pub enum ApplicationErrorView {
    Domain(DomainError),
    Repository(Seq<char>),
    InvalidPayload(Seq<char>),
    DataRecoveryRequired(Seq<char>),
}

impl View for ApplicationError {
    type V = ApplicationErrorView;

    open spec fn view(&self) -> ApplicationErrorView {
        match self {
            ApplicationError::Domain(d) => ApplicationErrorView::Domain(*d),
            ApplicationError::Repository(s) => ApplicationErrorView::Repository(s@),
            ApplicationError::InvalidPayload(s) => ApplicationErrorView::InvalidPayload(s@),
            ApplicationError::DataRecoveryRequired(s) => ApplicationErrorView::DataRecoveryRequired(
                s@,
            ),
        }
    }
}

impl ApplicationErrorView {
    /// The text of the error, with the prefix of its class.
    pub open spec fn message(self) -> Seq<char> {
        match self {
            ApplicationErrorView::Domain(d) => "Domänenfehler: "@ + d.message(),
            ApplicationErrorView::Repository(s) => "Repository-Fehler: "@ + s,
            ApplicationErrorView::InvalidPayload(s) => "ungültige Nutzdaten: "@ + s,
            ApplicationErrorView::DataRecoveryRequired(s) => "Datenwiederherstellung erforderlich: "@
                + s,
        }
    }

    pub open spec fn kind(self) -> ErrorKind {
        match self {
            ApplicationErrorView::Domain(_) => ErrorKind::Domain,
            ApplicationErrorView::Repository(_) => ErrorKind::Repository,
            ApplicationErrorView::InvalidPayload(_) => ErrorKind::InvalidPayload,
            ApplicationErrorView::DataRecoveryRequired(_) => ErrorKind::DataRecoveryRequired,
        }
    }
}

impl ApplicationError {
    /// An invalid-payload error with the given text.
    pub fn invalid_payload(text: &str) -> (r: Self)
        ensures
            r@ == ApplicationErrorView::InvalidPayload(text@),
    {
        ApplicationError::InvalidPayload(text.to_owned())
    }

    /// The text of the error, with the prefix of its class.
    pub fn to_string(&self) -> (s: String)
        ensures
            s@ == self@.message(),
    {
        match self {
            ApplicationError::Domain(d) => {
                let inner = d.to_string();
                concat("Domänenfehler: ", inner.as_str())
            },
            ApplicationError::Repository(s) => concat("Repository-Fehler: ", s.as_str()),
            ApplicationError::InvalidPayload(s) => concat("ungültige Nutzdaten: ", s.as_str()),
            ApplicationError::DataRecoveryRequired(s) => concat(
                "Datenwiederherstellung erforderlich: ",
                s.as_str(),
            ),
        }
    }

    pub fn kind(&self) -> (k: ErrorKind)
        ensures
            k == self@.kind(),
    {
        match self {
            ApplicationError::Domain(_) => ErrorKind::Domain,
            ApplicationError::Repository(_) => ErrorKind::Repository,
            ApplicationError::InvalidPayload(_) => ErrorKind::InvalidPayload,
            ApplicationError::DataRecoveryRequired(_) => ErrorKind::DataRecoveryRequired,
        }
    }
}

impl From<DomainError> for ApplicationError {
    fn from(error: DomainError) -> (r: Self)
        ensures
            r@ == ApplicationErrorView::Domain(error),
    {
        ApplicationError::Domain(error)
    }
}

impl vstd::std_specs::convert::FromSpecImpl<DomainError> for ApplicationError {
    open spec fn obeys_from_spec() -> bool {
        true
    }

    open spec fn from_spec(v: DomainError) -> Self {
        ApplicationError::Domain(v)
    }
}

/// Which modal dialog is open.
#[derive(Debug, Clone, Copy, PartialEq, Eq, Structural)]
pub enum ActiveDialog {
    About,
    Settings,
}

/// The colour scheme the user chose.
#[derive(Debug, Clone, Copy, PartialEq, Eq, Structural)]
pub enum ThemeMode {
    System,
    Light,
    Dark,
}

impl Default for ThemeMode {
    fn default() -> (r: Self)
        ensures
            r == ThemeMode::System,
    {
        ThemeMode::System
    }
}

/// The result of parsing a theme name.
pub open spec fn theme_parse_outcome(value: Seq<char>) -> Result<ThemeMode, ApplicationErrorView> {
    if value == "system"@ {
        Ok(ThemeMode::System)
    } else if value == "light"@ {
        Ok(ThemeMode::Light)
    } else if value == "dark"@ {
        Ok(ThemeMode::Dark)
    } else {
        Err(ApplicationErrorView::InvalidPayload("unbekannter Darstellungsmodus: "@ + value))
    }
}

impl ThemeMode {
    pub open spec fn name(self) -> Seq<char> {
        match self {
            ThemeMode::System => "system"@,
            ThemeMode::Light => "light"@,
            ThemeMode::Dark => "dark"@,
        }
    }

    pub open spec fn label_spec(self) -> Seq<char> {
        match self {
            ThemeMode::System => "Systemeinstellung"@,
            ThemeMode::Light => "Hell"@,
            ThemeMode::Dark => "Dunkel"@,
        }
    }

    /// The persisted name of the mode.
    pub fn as_str(self) -> (r: &'static str)
        ensures
            r@ == self.name(),
    {
        match self {
            ThemeMode::System => "system",
            ThemeMode::Light => "light",
            ThemeMode::Dark => "dark",
        }
    }

    /// The German label of the mode.
    pub fn label(self) -> (r: &'static str)
        ensures
            r@ == self.label_spec(),
    {
        match self {
            ThemeMode::System => "Systemeinstellung",
            ThemeMode::Light => "Hell",
            ThemeMode::Dark => "Dunkel",
        }
    }

    /// Reads a persisted mode name.
    pub fn parse(value: &str) -> (r: Result<Self, ApplicationError>)
        ensures
            match r {
                Ok(m) => theme_parse_outcome(value@) == Ok::<ThemeMode, ApplicationErrorView>(m),
                Err(e) => theme_parse_outcome(value@) == Err::<ThemeMode, ApplicationErrorView>(
                    e@,
                ),
            },
    {
        if crate::text::str_eq(value, "system") {
            Ok(ThemeMode::System)
        } else if crate::text::str_eq(value, "light") {
            Ok(ThemeMode::Light)
        } else if crate::text::str_eq(value, "dark") {
            Ok(ThemeMode::Dark)
        } else {
            Err(ApplicationError::InvalidPayload(concat("unbekannter Darstellungsmodus: ", value)))
        }
    }
}

/// What the user or an agent asks of the application.
#[derive(Debug, Clone, PartialEq, Eq)]
pub enum AppAction {
    SetInput { value: String },
    Focus { element_id: String },
    ClearFocus,
    SelectFile { path: String, is_directory: bool },
    RequestFilePicker,
    CancelFileSelection,
    Reset,
    OpenAbout,
    CloseAbout,
    OpenSettings,
    CloseSettings,
    SetThemeMode { mode: ThemeMode },
}

/// An action as a mathematical value.
pub enum AppActionView {
    SetInput { value: Seq<char> },
    Focus { element_id: Seq<char> },
    ClearFocus,
    SelectFile { path: Seq<char>, is_directory: bool },
    RequestFilePicker,
    CancelFileSelection,
    Reset,
    OpenAbout,
    CloseAbout,
    OpenSettings,
    CloseSettings,
    SetThemeMode { mode: ThemeMode },
}

impl View for AppAction {
    type V = AppActionView;

    open spec fn view(&self) -> AppActionView {
        match self {
            AppAction::SetInput { value } => AppActionView::SetInput { value: value@ },
            AppAction::Focus { element_id } => AppActionView::Focus { element_id: element_id@ },
            AppAction::ClearFocus => AppActionView::ClearFocus,
            AppAction::SelectFile { path, is_directory } => AppActionView::SelectFile {
                path: path@,
                is_directory: *is_directory,
            },
            AppAction::RequestFilePicker => AppActionView::RequestFilePicker,
            AppAction::CancelFileSelection => AppActionView::CancelFileSelection,
            AppAction::Reset => AppActionView::Reset,
            AppAction::OpenAbout => AppActionView::OpenAbout,
            AppAction::CloseAbout => AppActionView::CloseAbout,
            AppAction::OpenSettings => AppActionView::OpenSettings,
            AppAction::CloseSettings => AppActionView::CloseSettings,
            AppAction::SetThemeMode { mode } => AppActionView::SetThemeMode { mode: *mode },
        }
    }
}

/// A side effect that the presentation layer performs for the state.
#[derive(Debug, Clone, PartialEq, Eq)]
pub enum AppEffect {
    Focus { element_id: String },
    OpenNativeFilePicker,
}

/// What happened to a submission, or that an action was refused.
#[derive(Debug, Clone, PartialEq, Eq)]
pub enum AppEvent {
    SubmissionStarted,
    SubmissionSucceeded,
    SubmissionFailed { message: String, kind: ErrorKind },
    ActionFailed { message: String, kind: ErrorKind },
}

/// An event as a mathematical value.
pub enum AppEventView {
    SubmissionStarted,
    SubmissionSucceeded,
    SubmissionFailed { message: Seq<char>, kind: ErrorKind },
    ActionFailed { message: Seq<char>, kind: ErrorKind },
}

impl View for AppEvent {
    type V = AppEventView;

    open spec fn view(&self) -> AppEventView {
        match self {
            AppEvent::SubmissionStarted => AppEventView::SubmissionStarted,
            AppEvent::SubmissionSucceeded => AppEventView::SubmissionSucceeded,
            AppEvent::SubmissionFailed { message, kind } => AppEventView::SubmissionFailed {
                message: message@,
                kind: *kind,
            },
            AppEvent::ActionFailed { message, kind } => AppEventView::ActionFailed {
                message: message@,
                kind: *kind,
            },
        }
    }
}

/// The canonical, shared state of the application.
#[derive(Debug, PartialEq, Eq)]
pub struct AppState {
    pub revision: u64,
    pub input: String,
    pub selected_file: String,
    pub status: AppStatus,
    pub error_message: Option<String>,
    pub error_kind: Option<ErrorKind>,
    pub busy: bool,
    pub active_dialog: Option<ActiveDialog>,
    pub theme_mode: ThemeMode,
    pub focused_element: Option<String>,
    pub file_picker_requested: bool,
}

/// The state as a mathematical value.
pub struct AppStateView {
    pub revision: u64,
    pub input: Seq<char>,
    pub selected_file: Seq<char>,
    pub status: AppStatus,
    pub error_message: Option<Seq<char>>,
    pub error_kind: Option<ErrorKind>,
    pub busy: bool,
    pub active_dialog: Option<ActiveDialog>,
    pub theme_mode: ThemeMode,
    pub focused_element: Option<Seq<char>>,
    pub file_picker_requested: bool,
}

/// The view of an optional string.
pub open spec fn opt_view(o: Option<String>) -> Option<Seq<char>> {
    match o {
        Some(s) => Some(s@),
        None => None,
    }
}

/// A copy of an optional string.
pub fn copy_opt(o: &Option<String>) -> (r: Option<String>)
    ensures
        opt_view(r) == opt_view(*o),
{
    match o {
        Some(s) => Some(s.clone()),
        None => None,
    }
}

/// Whether two optional strings hold the same text.
pub fn opt_eq(a: &Option<String>, b: &Option<String>) -> (r: bool)
    ensures
        r == (opt_view(*a) == opt_view(*b)),
{
    match (a, b) {
        (Some(x), Some(y)) => *x == *y,
        (None, None) => true,
        _ => false,
    }
}

impl View for AppState {
    type V = AppStateView;

    open spec fn view(&self) -> AppStateView {
        AppStateView {
            revision: self.revision,
            input: self.input@,
            selected_file: self.selected_file@,
            status: self.status,
            error_message: opt_view(self.error_message),
            error_kind: self.error_kind,
            busy: self.busy,
            active_dialog: self.active_dialog,
            theme_mode: self.theme_mode,
            focused_element: opt_view(self.focused_element),
            file_picker_requested: self.file_picker_requested,
        }
    }
}

/// The state an application starts in.
pub open spec fn initial_state() -> AppStateView {
    AppStateView {
        revision: 0,
        input: Seq::empty(),
        selected_file: Seq::empty(),
        status: AppStatus::Ready,
        error_message: None,
        error_kind: None,
        busy: false,
        active_dialog: None,
        theme_mode: ThemeMode::System,
        focused_element: None,
        file_picker_requested: false,
    }
}

/// The outcome that the file-path rules give for a raw path: the path is
/// trimmed and must then be non-empty, at most 4096 bytes long in UTF-8, free
/// of NUL characters, and must not name a directory (`is_directory`, which
/// whoever reads the file system reports).
pub open spec fn file_path_outcome(path: Seq<char>, is_directory: bool) -> Result<Seq<char>, ApplicationErrorView> {
    let t = trim(path);
    if t.len() == 0 {
        Err(ApplicationErrorView::InvalidPayload("Dateipfad darf nicht leer sein"@))
    } else if vstd::utf8::encode_utf8(t).len() > MAX_TEXT_LEN {
        Err(ApplicationErrorView::InvalidPayload("Dateipfad überschreitet 4096 Zeichen"@))
    } else if has_char(t, '\0') {
        Err(ApplicationErrorView::InvalidPayload("Dateipfad enthält ungültige Nullbytes"@))
    } else if is_directory {
        Err(ApplicationErrorView::InvalidPayload("Dateipfad muss auf eine Datei verweisen"@))
    } else {
        Ok(t)
    }
}

/// What an action does to the state, and the message it answers with; or
/// the error for which it is refused (the state is then left as it was).
pub open spec fn reduce(s: AppStateView, a: AppActionView) -> Result<
    (AppStateView, Seq<char>),
    ApplicationErrorView,
> {
    match a {
        AppActionView::SetInput { value } => if vstd::utf8::encode_utf8(value).len() > MAX_TEXT_LEN {
            Err(ApplicationErrorView::InvalidPayload("Eingabe überschreitet 4096 Zeichen"@))
        } else {
            Ok(
                (
                    AppStateView { input: value, error_message: None, error_kind: None, ..s },
                    "Wert aktualisiert"@,
                ),
            )
        },
        AppActionView::Focus { element_id } => Ok(
            (
                AppStateView { focused_element: Some(element_id), ..s },
                element_id + " fokussiert"@,
            ),
        ),
        AppActionView::ClearFocus => Ok(
            (AppStateView { focused_element: None, ..s }, "Fokus aufgehoben"@),
        ),
        AppActionView::SelectFile { path, is_directory } => match file_path_outcome(path, is_directory) {
            Ok(p) => Ok(
                (
                    AppStateView { selected_file: p, file_picker_requested: false, ..s },
                    "Datei ausgewählt"@,
                ),
            ),
            Err(e) => Err(e),
        },
        AppActionView::RequestFilePicker => Ok(
            (AppStateView { file_picker_requested: true, ..s }, "Dateiauswahl geöffnet"@),
        ),
        AppActionView::CancelFileSelection => Ok(
            (AppStateView { file_picker_requested: false, ..s }, "Dateiauswahl abgebrochen"@),
        ),
        AppActionView::Reset => Ok(
            (
                AppStateView {
                    input: Seq::empty(),
                    status: AppStatus::Ready,
                    busy: false,
                    error_message: None,
                    error_kind: None,
                    active_dialog: None,
                    ..s
                },
                "zurückgesetzt"@,
            ),
        ),
        AppActionView::OpenAbout => Ok(
            (AppStateView { active_dialog: Some(ActiveDialog::About), ..s }, "Info-Dialog geöffnet"@),
        ),
        AppActionView::CloseAbout => Ok(
            (
                if s.active_dialog == Some(ActiveDialog::About) {
                    AppStateView { active_dialog: None, ..s }
                } else {
                    s
                },
                "Info-Dialog geschlossen"@,
            ),
        ),
        AppActionView::OpenSettings => Ok(
            (
                AppStateView { active_dialog: Some(ActiveDialog::Settings), ..s },
                "Einstellungen geöffnet"@,
            ),
        ),
        AppActionView::CloseSettings => Ok(
            (
                if s.active_dialog == Some(ActiveDialog::Settings) {
                    AppStateView { active_dialog: None, ..s }
                } else {
                    s
                },
                "Einstellungen geschlossen"@,
            ),
        ),
        AppActionView::SetThemeMode { mode } => Ok(
            (
                AppStateView { theme_mode: mode, ..s },
                "App-Design auf "@ + mode.label_spec() + " gesetzt"@,
            ),
        ),
    }
}

/// What an event does to the state, and the message it answers with.
pub open spec fn apply_event_spec(s: AppStateView, e: AppEventView) -> (AppStateView, Seq<char>) {
    match e {
        AppEventView::SubmissionStarted => (
            AppStateView {
                busy: true,
                status: AppStatus::Busy,
                error_message: None,
                error_kind: None,
                ..s
            },
            "wird ausgeführt"@,
        ),
        AppEventView::SubmissionSucceeded => (
            AppStateView {
                busy: false,
                status: AppStatus::Success,
                error_message: None,
                error_kind: None,
                ..s
            },
            "Befehl ausgeführt"@,
        ),
        AppEventView::SubmissionFailed { message, kind } => (
            AppStateView {
                busy: false,
                status: AppStatus::Error,
                error_message: Some(message),
                error_kind: Some(kind),
                ..s
            },
            message,
        ),
        AppEventView::ActionFailed { message, kind } => (
            AppStateView {
                status: AppStatus::Error,
                error_message: Some(message),
                error_kind: Some(kind),
                ..s
            },
            message,
        ),
    }
}

/// The screen that the open dialog puts in front.
pub open spec fn screen_of(s: AppStateView) -> AppScreen {
    match s.active_dialog {
        Some(ActiveDialog::About) => AppScreen::About,
        Some(ActiveDialog::Settings) => AppScreen::Settings,
        None => AppScreen::Main,
    }
}

/// Whether the input may be submitted: nothing is running and the input is
/// not blank.
pub open spec fn can_submit_spec(s: AppStateView) -> bool {
    !s.busy && !is_blank(s.input)
}

impl AppState {
    pub fn new() -> (r: Self)
        ensures
            r@ == initial_state(),
    {
        AppState {
            revision: 0,
            input: String::new(),
            selected_file: String::new(),
            status: AppStatus::Ready,
            error_message: None,
            error_kind: None,
            busy: false,
            active_dialog: None,
            theme_mode: ThemeMode::System,
            focused_element: None,
            file_picker_requested: false,
        }
    }

    pub fn screen(&self) -> (r: AppScreen)
        ensures
            r == screen_of(self@),
    {
        match self.active_dialog {
            Some(ActiveDialog::About) => AppScreen::About,
            Some(ActiveDialog::Settings) => AppScreen::Settings,
            None => AppScreen::Main,
        }
    }

    pub fn is_about_open(&self) -> (r: bool)
        ensures
            r == (self.active_dialog == Some(ActiveDialog::About)),
    {
        match self.active_dialog {
            Some(ActiveDialog::About) => true,
            _ => false,
        }
    }

    pub fn is_settings_open(&self) -> (r: bool)
        ensures
            r == (self.active_dialog == Some(ActiveDialog::Settings)),
    {
        match self.active_dialog {
            Some(ActiveDialog::Settings) => true,
            _ => false,
        }
    }

    pub fn can_submit(&self) -> (r: bool)
        ensures
            r == can_submit_spec(self@),
    {
        let trimmed = trim_str(self.input.as_str());
        proof {
            crate::text::lemma_trim_empty_iff_blank(self.input@);
        }
        !self.busy && trimmed.as_str().unicode_len() != 0
    }

    /// A copy with the same contents.
    pub fn duplicate(&self) -> (r: Self)
        ensures
            r@ == self@,
    {
        AppState {
            revision: self.revision,
            input: self.input.clone(),
            selected_file: self.selected_file.clone(),
            status: self.status,
            error_message: copy_opt(&self.error_message),
            error_kind: self.error_kind,
            busy: self.busy,
            active_dialog: self.active_dialog,
            theme_mode: self.theme_mode,
            focused_element: copy_opt(&self.focused_element),
            file_picker_requested: self.file_picker_requested,
        }
    }

    /// Whether both states hold the same contents.
    pub fn same_as(&self, other: &AppState) -> (r: bool)
        ensures
            r == (self@ == other@),
    {
        self.revision == other.revision && self.input == other.input && self.selected_file
            == other.selected_file && self.status == other.status && opt_eq(
            &self.error_message,
            &other.error_message,
        ) && self.error_kind == other.error_kind && self.busy == other.busy
            && self.active_dialog == other.active_dialog && self.theme_mode == other.theme_mode
            && opt_eq(&self.focused_element, &other.focused_element)
            && self.file_picker_requested == other.file_picker_requested
    }

    fn apply_action(&mut self, action: &AppAction) -> (r: Result<String, ApplicationError>)
        ensures
            match r {
                Ok(m) => reduce(old(self)@, action@) == Ok::<
                    (AppStateView, Seq<char>),
                    ApplicationErrorView,
                >((final(self)@, m@)),
                Err(e) => reduce(old(self)@, action@) == Err::<
                    (AppStateView, Seq<char>),
                    ApplicationErrorView,
                >(e@) && final(self)@ == old(self)@,
            },
    {
        match action {
            AppAction::SetInput { value } => {
                if crate::text::byte_len(value.as_str()) > MAX_TEXT_LEN {
                    return Err(
                        ApplicationError::invalid_payload("Eingabe überschreitet 4096 Zeichen"),
                    );
                }
                self.input = value.clone();
                self.error_message = None;
                self.error_kind = None;
                Ok("Wert aktualisiert".to_owned())
            },
            AppAction::Focus { element_id } => {
                self.focused_element = Some(element_id.clone());
                Ok(concat(element_id.as_str(), " fokussiert"))
            },
            AppAction::ClearFocus => {
                self.focused_element = None;
                Ok("Fokus aufgehoben".to_owned())
            },
            AppAction::SelectFile { path, is_directory } => {
                let path = AppReducer::validate_file_path(path.as_str(), *is_directory)?;
                self.selected_file = path;
                self.file_picker_requested = false;
                Ok("Datei ausgewählt".to_owned())
            },
            AppAction::RequestFilePicker => {
                self.file_picker_requested = true;
                Ok("Dateiauswahl geöffnet".to_owned())
            },
            AppAction::CancelFileSelection => {
                self.file_picker_requested = false;
                Ok("Dateiauswahl abgebrochen".to_owned())
            },
            AppAction::Reset => {
                self.input = String::new();
                self.status = AppStatus::Ready;
                self.busy = false;
                self.error_message = None;
                self.error_kind = None;
                self.active_dialog = None;
                Ok("zurückgesetzt".to_owned())
            },
            AppAction::OpenAbout => {
                self.active_dialog = Some(ActiveDialog::About);
                Ok("Info-Dialog geöffnet".to_owned())
            },
            AppAction::CloseAbout => {
                if self.is_about_open() {
                    self.active_dialog = None;
                }
                Ok("Info-Dialog geschlossen".to_owned())
            },
            AppAction::OpenSettings => {
                self.active_dialog = Some(ActiveDialog::Settings);
                Ok("Einstellungen geöffnet".to_owned())
            },
            AppAction::CloseSettings => {
                if self.is_settings_open() {
                    self.active_dialog = None;
                }
                Ok("Einstellungen geschlossen".to_owned())
            },
            AppAction::SetThemeMode { mode } => {
                self.theme_mode = *mode;
                Ok(crate::text::concat3("App-Design auf ", mode.label(), " gesetzt"))
            },
        }
    }

    fn apply_event(&mut self, event: &AppEvent) -> (r: String)
        ensures
            (final(self)@, r@) == apply_event_spec(old(self)@, event@),
    {
        match event {
            AppEvent::SubmissionStarted => {
                self.busy = true;
                self.status = AppStatus::Busy;
                self.error_message = None;
                self.error_kind = None;
                "wird ausgeführt".to_owned()
            },
            AppEvent::SubmissionSucceeded => {
                self.busy = false;
                self.status = AppStatus::Success;
                self.error_message = None;
                self.error_kind = None;
                "Befehl ausgeführt".to_owned()
            },
            AppEvent::SubmissionFailed { message, kind } => {
                self.busy = false;
                self.status = AppStatus::Error;
                self.error_message = Some(message.clone());
                self.error_kind = Some(*kind);
                message.clone()
            },
            AppEvent::ActionFailed { message, kind } => {
                self.status = AppStatus::Error;
                self.error_message = Some(message.clone());
                self.error_kind = Some(*kind);
                message.clone()
            },
        }
    }
}

impl Default for AppState {
    fn default() -> (r: Self)
        ensures
            r@ == initial_state(),
    {
        AppState::new()
    }
}

impl Clone for AppState {
    fn clone(&self) -> (r: Self)
        ensures
            r@ == self@,
    {
        self.duplicate()
    }
}

/// The reply to an accepted action: its message and the state after it.
#[derive(Debug, PartialEq, Eq)]
pub struct CommandResult {
    pub message: String,
    pub state: AppState,
}

/// Entry points of the reducer.
pub struct AppReducer;

impl AppReducer {
    pub fn apply(state: &mut AppState, action: &AppAction) -> (r: Result<String, ApplicationError>)
        ensures
            match r {
                Ok(m) => reduce(old(state)@, action@) == Ok::<
                    (AppStateView, Seq<char>),
                    ApplicationErrorView,
                >((final(state)@, m@)),
                Err(e) => reduce(old(state)@, action@) == Err::<
                    (AppStateView, Seq<char>),
                    ApplicationErrorView,
                >(e@) && final(state)@ == old(state)@,
            },
    {
        state.apply_action(action)
    }

    pub fn apply_event(state: &mut AppState, event: &AppEvent) -> (r: String)
        ensures
            (final(state)@, r@) == apply_event_spec(old(state)@, event@),
    {
        state.apply_event(event)
    }

    /// Checks a path chosen for selection and returns it trimmed;
    /// `is_directory` tells whether the path names a directory.
    pub fn validate_file_path(path: &str, is_directory: bool) -> (r: Result<String, ApplicationError>)
        ensures
            match r {
                Ok(p) => file_path_outcome(path@, is_directory) == Ok::<Seq<char>, ApplicationErrorView>(p@),
                Err(e) => file_path_outcome(path@, is_directory) == Err::<Seq<char>, ApplicationErrorView>(e@),
            },
    {
        let trimmed = trim_str(path);
        let v = crate::text::chars_of(trimmed.as_str());
        let n = v.len();
        if n == 0 {
            return Err(ApplicationError::invalid_payload("Dateipfad darf nicht leer sein"));
        }
        if crate::text::byte_len(trimmed.as_str()) > MAX_TEXT_LEN {
            return Err(ApplicationError::invalid_payload("Dateipfad überschreitet 4096 Zeichen"));
        }
        let mut i: usize = 0;
        while i < n
            invariant
                n == v@.len(),
                v@ == trim(path@),
                0 < n,
                vstd::utf8::encode_utf8(v@).len() <= MAX_TEXT_LEN,
                i <= n,
                forall|j: int| 0 <= j < i ==> v@[j] != '\0',
            decreases n - i,
        {
            if v[i] == '\0' {
                assert(v@[i as int] == '\0');
                assert(has_char(v@, '\0'));
                return Err(
                    ApplicationError::invalid_payload("Dateipfad enthält ungültige Nullbytes"),
                );
            }
            i = i + 1;
        }
        if is_directory {
            return Err(
                ApplicationError::invalid_payload("Dateipfad muss auf eine Datei verweisen"),
            );
        }
        Ok(trimmed)
    }
}

} // verus!
