//! The agent interface: transport-independent semantic operations over the
//! one application state store — state retrieval, UI inspection, UI
//! actions and application commands.
use crate::agent_ui::{
    command_plan, data_summary_text, dialog_elements, element_views, fixed_elements, item_elements, plan_command,
    plan_spec, plan_ui_action, screen_name, screen_name_of, ui_elements, ui_elements_spec,
    AgentActionRequest, AgentCommandRequest, AgentElement, AgentNoteSummary, AgentOperation,
    OperationView, SnapshotView, UiSnapshot,
};
use crate::domain::{note_body_outcome, note_title_outcome, NoteId, NoteView};
use crate::note_list::{active, index_of_id, views};
use crate::service::{
    is_storage_failure, note_not_found, stores_archival, stores_edited_note, stores_new_note,
    submission_accepts, AppRepository, AppService, NoteRepository, NoteService, SystemClock,
    UserDataRepository,
};
use crate::state::{
    opt_view, AppStateView, ApplicationError, ApplicationErrorView, ErrorKind,
};
use crate::store::{after_event, dispatch_outcome, failure_event, AppStateStore};
use crate::localization::{status_key, text_spec, Catalog, Locale};
use crate::text::{concat, decimal_string};
use vstd::prelude::*;

verus! {

/// The state an agent sees.
#[derive(Debug, Clone, PartialEq, Eq)]
pub struct AgentStateResponse {
    pub screen: String,
    pub status: String,
    pub busy: bool,
    pub theme_mode: String,
    pub error: Option<String>,
    pub ui_error: Option<AgentUiError>,
    pub notes: Vec<AgentNoteSummary>,
    pub note_title: String,
    pub note_body: String,
    pub selected_note_id: Option<String>,
    pub last_backup_path: Option<String>,
}

/// The last error, with its machine-readable code, the user-facing text and
/// the full diagnostic text.
#[derive(Debug, Clone, PartialEq, Eq)]
pub struct AgentUiError {
    pub code: String,
    pub message: String,
    pub diagnostic_message: String,
}

/// The semantic UI tree and the screen it belongs to.
#[derive(Debug, Clone, PartialEq, Eq)]
pub struct UiInspectionResponse {
    pub screen: String,
    pub elements: Vec<AgentElement>,
}

/// An error as a transport reports it.
#[derive(Debug, Clone, PartialEq, Eq)]
pub struct AgentErrorResponse {
    pub error: String,
    pub element: Option<String>,
}

/// The transport-independent semantic interface of the agent service.
pub trait AgentService {
    fn get_state(&self) -> Result<AgentStateResponse, ApplicationError>;

    fn inspect_ui(&self) -> Result<UiInspectionResponse, ApplicationError>;

    fn execute_command(&mut self, request: AgentCommandRequest) -> Result<String, ApplicationError>;

    fn execute_ui_action(&mut self, action: AgentActionRequest) -> Result<String, ApplicationError>;
}

/// What the agent interface holds besides the repository: the application
/// state, the note draft, the selected note and the last backup.
pub struct AgentView {
    pub state: AppStateView,
    pub note_title: Seq<char>,
    pub note_body: Seq<char>,
    pub selected: Option<Seq<char>>,
    pub backup: Option<Seq<char>>,
}

/// Whether `r` succeeded or, unless the repository never fails
/// (`reliable`), is a storage failure.
pub open spec fn ok_unless_storage_fails(r: Result<Seq<char>, ApplicationErrorView>, reliable: bool) -> bool {
    match r {
        Ok(_) => true,
        Err(e) => !reliable && is_storage_failure(e),
    }
}

/// Whether `r` is the error `expected` or, unless the repository never
/// fails (`reliable`), a storage failure.
pub open spec fn refused_as(
    r: Result<Seq<char>, ApplicationErrorView>,
    expected: ApplicationErrorView,
    reliable: bool,
) -> bool {
    r matches Err(e) && (e == expected || (!reliable && is_storage_failure(e)))
}

/// The answer to saving the draft `title` and `body`: refused for the first
/// rule they break (after an unknown selected note, when `checked` says the
/// note is looked up first), otherwise done unless the storage fails.
pub open spec fn save_answered(
    r: Result<Seq<char>, ApplicationErrorView>,
    title: Seq<char>,
    body: Seq<char>,
    checked: bool,
    reliable: bool,
) -> bool {
    match (note_title_outcome(title), note_body_outcome(body)) {
        (Err(te), _) => if checked {
            refused_as(r, ApplicationErrorView::Domain(te), reliable)
        } else {
            r == Err::<Seq<char>, ApplicationErrorView>(ApplicationErrorView::Domain(te))
        },
        (Ok(_), Err(be)) => if checked {
            refused_as(r, ApplicationErrorView::Domain(be), reliable)
        } else {
            r == Err::<Seq<char>, ApplicationErrorView>(ApplicationErrorView::Domain(be))
        },
        (Ok(_), Ok(_)) => ok_unless_storage_fails(r, reliable),
    }
}

/// What performing `op` turned `old` into, and answered with, where
/// `before` and `after` are the notes that the repository lists before and
/// after, and `submissions_reliable` and `notes_reliable` say whether the
/// repositories never fail. Operations on the state are exact; note and
/// data operations depend on what the repository does, and state what holds
/// either way.
pub open spec fn performed(
    old: AgentView,
    new: AgentView,
    op: OperationView,
    r: Result<Seq<char>, ApplicationErrorView>,
    before: Seq<NoteView>,
    after: Seq<NoteView>,
    submissions_reliable: bool,
    notes_reliable: bool,
) -> bool {
    let drafts_kept = new.note_title == old.note_title && new.note_body == old.note_body
        && new.selected == old.selected && new.backup == old.backup;
    let listed = active(before);
    &&& match op {
        OperationView::SaveNote | OperationView::ArchiveNote | OperationView::CreateBackup
        | OperationView::ResetUserData => true,
        _ => after == before,
    }
    &&& match op {
        OperationView::Submit => if submission_accepts(old.state.input) {
            ok_unless_storage_fails(r, submissions_reliable)
        } else {
            r == Err::<Seq<char>, ApplicationErrorView>(
                ApplicationErrorView::Domain(crate::domain::DomainError::EmptyValue),
            )
        },
        OperationView::SaveNote => match old.selected {
            None => save_answered(r, old.note_title, old.note_body, false, notes_reliable),
            Some(id) => if index_of_id(before, id) == -1 {
                refused_as(r, note_not_found(id), notes_reliable)
            } else {
                save_answered(r, old.note_title, old.note_body, true, notes_reliable)
            },
        },
        OperationView::ArchiveNote => match old.selected {
            None => r == Err::<Seq<char>, ApplicationErrorView>(
                ApplicationErrorView::InvalidPayload("Keine Notiz ausgewählt"@),
            ),
            Some(id) => if index_of_id(before, id) == -1 {
                refused_as(r, note_not_found(id), notes_reliable)
            } else {
                ok_unless_storage_fails(r, notes_reliable)
            },
        },
        OperationView::SelectNote(k) => if k < listed.len() {
            ok_unless_storage_fails(r, notes_reliable)
        } else {
            refused_as(r, ApplicationErrorView::InvalidPayload("Notiz nicht gefunden"@), notes_reliable)
        },
        _ => true,
    }
    &&& match op {
        OperationView::Dispatch(a) => drafts_kept && new.state == dispatch_outcome(old.state, a).0
            && r == dispatch_outcome(old.state, a).1,
        OperationView::Submit => drafts_kept && {
            let started = after_event(old.state, crate::state::AppEventView::SubmissionStarted);
            match r {
                Ok(m) => new.state == after_event(started, crate::state::AppEventView::SubmissionSucceeded)
                    && m == "Befehl ausgeführt"@,
                Err(e) => new.state == after_event(
                    started,
                    crate::state::AppEventView::SubmissionFailed { message: e.message(), kind: e.kind() },
                ),
            }
        },
        OperationView::Read(v) => new == old && r == Ok::<Seq<char>, ApplicationErrorView>(v),
        OperationView::NewNote => new == (AgentView {
            note_title: Seq::empty(),
            note_body: Seq::empty(),
            selected: None,
            ..old
        }) && r == Ok::<Seq<char>, ApplicationErrorView>("Neuer Notizentwurf"@),
        OperationView::SetNoteTitle(v) => new == (AgentView { note_title: v, ..old }) && r == Ok::<
            Seq<char>,
            ApplicationErrorView,
        >("Notiztitel aktualisiert"@),
        OperationView::SetNoteBody(v) => new == (AgentView { note_body: v, ..old }) && r == Ok::<
            Seq<char>,
            ApplicationErrorView,
        >("Notizinhalt aktualisiert"@),
        OperationView::SaveNote => match r {
            Ok(m) => m == "Notiz gespeichert"@ && new.state == old.state
                && note_title_outcome(old.note_title) is Ok && new.selected is Some
                && new.note_title == old.note_title && new.note_body == old.note_body
                && new.backup == old.backup && match old.selected {
                None => stores_new_note(before, after, new.selected.unwrap(), old.note_title, old.note_body),
                Some(id) => new.selected == Some(id) && stores_edited_note(
                    before,
                    after,
                    id,
                    old.note_title,
                    old.note_body,
                ),
            },
            Err(e) => new == (AgentView { state: after_event(old.state, failure_event(e)), ..old }),
        },
        OperationView::ArchiveNote => match r {
            Ok(m) => m == "Notiz archiviert"@ && old.selected is Some && new == (AgentView {
                note_title: Seq::empty(),
                note_body: Seq::empty(),
                selected: None,
                ..old
            }) && stores_archival(before, after, old.selected.unwrap(), true),
            Err(e) => new == (AgentView { state: after_event(old.state, failure_event(e)), ..old }),
        },
        OperationView::SelectNote(k) => match r {
            Ok(m) => m == "Notiz ausgewählt"@ && k < listed.len() && new == (AgentView {
                selected: Some(listed[k as int].id),
                note_title: listed[k as int].title,
                note_body: listed[k as int].body,
                ..old
            }),
            Err(e) => new == (AgentView { state: after_event(old.state, failure_event(e)), ..old }),
        },
        OperationView::CreateBackup => match r {
            Ok(m) => new.backup is Some && m == "Daten gesichert: "@ + new.backup.unwrap() && new
                == (AgentView { backup: new.backup, ..old }),
            Err(e) => new == (AgentView { state: after_event(old.state, failure_event(e)), ..old }),
        },
        OperationView::ResetUserData => match r {
            Ok(m) => m == "Benutzerdaten zurückgesetzt"@ && new == (AgentView {
                note_title: Seq::empty(),
                note_body: Seq::empty(),
                selected: None,
                ..old
            }),
            Err(e) => new == (AgentView { state: after_event(old.state, failure_event(e)), ..old }),
        },
    }
}

/// The view of an optional note identifier.
pub open spec fn opt_id_view(o: Option<NoteId>) -> Option<Seq<char>> {
    match o {
        Some(id) => Some(id@),
        None => None,
    }
}

/// The view of a result with a text.
pub open spec fn text_result(r: Result<String, ApplicationError>) -> Result<Seq<char>, ApplicationErrorView> {
    match r {
        Ok(s) => Ok(s@),
        Err(e) => Err(e@),
    }
}

/// The agent service over one application state store and the notes of
/// the same kind of repository.
pub struct AgentApi<S> {
    store: AppStateStore<S>,
    notes: NoteService<S, SystemClock>,
    note_title: String,
    note_body: String,
    selected_note: Option<NoteId>,
    last_backup_path: Option<String>,
}

impl<S: AppRepository + NoteRepository + UserDataRepository + Clone> AgentApi<S> {
    pub closed spec fn view_spec(&self) -> AgentView {
        AgentView {
            state: self.store@,
            note_title: self.note_title@,
            note_body: self.note_body@,
            selected: opt_id_view(self.selected_note),
            backup: opt_view(self.last_backup_path),
        }
    }

    /// The repository that the notes are kept in.
    pub closed spec fn notes_repository(&self) -> S {
        self.notes.repository()
    }

    /// The repository that the state store's submissions go to.
    pub closed spec fn store_repository(&self) -> S {
        self.store.service_spec().repository()
    }

    /// The active notes that the repository lists, in its order.
    pub open spec fn listed_notes(&self) -> Seq<NoteView> {
        active(self.notes_repository().notes_model())
    }

    /// The titles of the listed notes: the notes list of the UI when
    /// listing succeeds.
    pub open spec fn listed_titles(&self) -> Seq<Seq<char>> {
        self.listed_notes().map_values(|n: NoteView| n.title)
    }

    /// The notes list of the UI: the listed titles, or none when the
    /// repository could not list its notes.
    pub open spec fn shows_titles(&self, titles: Seq<Seq<char>>) -> bool {
        titles == self.listed_titles() || titles.len() == 0
    }

    /// The identifiers and titles of the listed notes: the notes that the
    /// state answer holds when listing succeeds.
    pub open spec fn listed_entries(&self) -> Seq<(Seq<char>, Seq<char>)> {
        self.listed_notes().map_values(|n: NoteView| (n.id, n.title))
    }

    /// The notes of the state answer: the listed entries, or none when the
    /// repository could not list its notes.
    pub open spec fn shows_notes(&self, entries: Seq<(Seq<char>, Seq<char>)>) -> bool {
        entries == self.listed_entries() || entries.len() == 0
    }

    /// The UI snapshot for the given notes list and data summary.
    pub open spec fn snapshot_with(&self, titles: Seq<Seq<char>>, summary: Seq<char>) -> SnapshotView {
        SnapshotView {
            state: self.view_spec().state,
            note_titles: titles,
            note_title: self.view_spec().note_title,
            note_body: self.view_spec().note_body,
            has_selection: self.view_spec().selected is Some,
            data_summary: summary,
        }
    }

    /// A service over a fresh state store; notes live in a copy of the
    /// service's repository.
    pub fn new(service: AppService<S>) -> (r: Self)
        ensures
            r.view_spec() == (AgentView {
                state: crate::state::initial_state(),
                note_title: Seq::empty(),
                note_body: Seq::empty(),
                selected: None,
                backup: None,
            }),
            r.store_repository() == service.repository(),
    {
        let notes_repository = service.repository_ref().clone();
        AgentApi {
            store: AppStateStore::new(service),
            notes: NoteService::new(notes_repository),
            note_title: String::new(),
            note_body: String::new(),
            selected_note: None,
            last_backup_path: None,
        }
    }

    /// The state store that all operations go through.
    pub fn store(&self) -> (r: &AppStateStore<S>)
        ensures
            r@ == self.view_spec().state,
    {
        &self.store
    }

    /// The state store, for operations of the presentation layer.
    pub fn store_mut(&mut self) -> (r: &mut AppStateStore<S>)
        ensures
            (*r)@ == old(self).view_spec().state,
            final(self).view_spec() == (AgentView { state: (*final(r))@, ..old(self).view_spec() }),
    {
        &mut self.store
    }

    fn note_summaries(&self) -> (r: Vec<AgentNoteSummary>)
        ensures
            self.shows_titles(r@.map_values(|n: AgentNoteSummary| n.title@)),
            self.shows_notes(r@.map_values(|n: AgentNoteSummary| (n.id@, n.title@))),
    {
        match self.notes.list_active_notes() {
            Ok(notes) => {
                let ghost listed = views(notes@).map_values(|n: NoteView| n.title);
                let ghost entries = views(notes@).map_values(|n: NoteView| (n.id, n.title));
                let mut out: Vec<AgentNoteSummary> = Vec::new();
                let mut i: usize = 0;
                while i < notes.len()
                    invariant
                        i <= notes@.len(),
                        listed == views(notes@).map_values(|n: NoteView| n.title),
                        out@.map_values(|n: AgentNoteSummary| n.title@) =~= listed.subrange(
                            0,
                            i as int,
                        ),
                        entries == views(notes@).map_values(|n: NoteView| (n.id, n.title)),
                        out@.map_values(|n: AgentNoteSummary| (n.id@, n.title@)) =~= entries.subrange(
                            0,
                            i as int,
                        ),
                    decreases notes@.len() - i,
                {
                    let summary = AgentNoteSummary {
                        id: notes[i].id().as_str().to_owned(),
                        title: notes[i].title().as_str().to_owned(),
                    };
                    assert(summary.title@ == listed[i as int]);
                    assert((summary.id@, summary.title@) == entries[i as int]);
                    let ghost before = out@;
                    out.push(summary);
                    assert(out@.map_values(|n: AgentNoteSummary| n.title@) =~= before.map_values(
                        |n: AgentNoteSummary| n.title@,
                    ).push(summary.title@));
                    assert(listed.subrange(0, i + 1) =~= listed.subrange(0, i as int).push(
                        listed[i as int],
                    ));
                    assert(out@.map_values(|n: AgentNoteSummary| (n.id@, n.title@)) =~= before.map_values(
                        |n: AgentNoteSummary| (n.id@, n.title@),
                    ).push((summary.id@, summary.title@)));
                    assert(entries.subrange(0, i + 1) =~= entries.subrange(0, i as int).push(
                        entries[i as int],
                    ));
                    i = i + 1;
                }
                assert(listed.subrange(0, i as int) =~= listed);
                assert(entries.subrange(0, i as int) =~= entries);
                out
            },
            Err(_) => {
                let out: Vec<AgentNoteSummary> = Vec::new();
                assert(out@.map_values(|n: AgentNoteSummary| n.title@).len() == 0);
                assert(out@.map_values(|n: AgentNoteSummary| (n.id@, n.title@)).len() == 0);
                out
            },
        }
    }

    fn snapshot(&self) -> (r: UiSnapshot)
        ensures
            r@ == self.snapshot_with(r@.note_titles, data_summary_text(r@.note_titles.len())),
            self.shows_titles(r@.note_titles),
    {
        let notes = self.note_summaries();
        let summary = concat(decimal_string(notes.len() as u64).as_str(), " aktive Notizen");
        UiSnapshot {
            state: self.store.current_state().unwrap(),
            notes,
            note_title: self.note_title.clone(),
            note_body: self.note_body.clone(),
            has_selection: self.selected_note.is_some(),
            data_summary: summary,
        }
    }

    /// The state an agent sees.
    pub fn get_state(&self) -> (r: Result<AgentStateResponse, ApplicationError>)
        ensures
            r matches Ok(s) && s.screen@ == screen_name(self.view_spec().state) && s.status@
                == text_spec(Locale::German, status_key(self.view_spec().state.status)) && s.busy
                == self.view_spec().state.busy && s.theme_mode@
                == self.view_spec().state.theme_mode.name() && s.note_title@
                == self.view_spec().note_title && s.note_body@ == self.view_spec().note_body
                && opt_view(s.selected_note_id) == self.view_spec().selected && opt_view(
                s.last_backup_path,
            ) == self.view_spec().backup && (match self.view_spec().state.error_kind {
                Some(k) => opt_view(s.error) == Some(k.user_message_spec()),
                None => s.error is None,
            }) && (match (self.view_spec().state.error_kind, self.view_spec().state.error_message) {
                (Some(k), Some(m)) => s.ui_error matches Some(u) && u.code@ == k.code_spec()
                    && u.message@ == k.user_message_spec() && u.diagnostic_message@ == m,
                _ => s.ui_error is None,
            }) && self.shows_notes(s.notes@.map_values(|n: AgentNoteSummary| (n.id@, n.title@))),
    {
        let state = self.store.current_state().unwrap();
        let error = match state.error_kind {
            Some(k) => Some(k.user_message().to_owned()),
            None => None,
        };
        let ui_error = match (state.error_kind, &state.error_message) {
            (Some(k), Some(m)) => Some(
                AgentUiError {
                    code: k.code().to_owned(),
                    message: k.user_message().to_owned(),
                    diagnostic_message: m.clone(),
                },
            ),
            _ => None,
        };
        let selected_note_id = match &self.selected_note {
            Some(id) => Some(id.as_str().to_owned()),
            None => None,
        };
        Ok(
            AgentStateResponse {
                screen: screen_name_of(&state).to_owned(),
                status: Catalog::new(Locale::German).status(&state.status).to_owned(),
                busy: state.busy,
                theme_mode: state.theme_mode.as_str().to_owned(),
                error,
                ui_error,
                notes: self.note_summaries(),
                note_title: self.note_title.clone(),
                note_body: self.note_body.clone(),
                selected_note_id,
                last_backup_path: crate::state::copy_opt(&self.last_backup_path),
            },
        )
    }

    /// The semantic UI tree for the current state: the fixed elements, the
    /// notes list and the elements of the open dialog.
    pub fn inspect_ui(&self) -> (r: Result<UiInspectionResponse, ApplicationError>)
        ensures
            r matches Ok(resp) && resp.screen@ == screen_name(self.view_spec().state) && exists|titles: Seq<Seq<char>>|
                self.shows_titles(titles) && element_views(resp.elements@) == ui_elements_spec(
                    #[trigger] self.snapshot_with(titles, data_summary_text(titles.len())),
                ),
    {
        let snapshot = self.snapshot();
        let elements = ui_elements(&snapshot);
        proof {
            let v = snapshot@;
            assert(v == self.snapshot_with(v.note_titles, data_summary_text(v.note_titles.len())));
        }
        Ok(UiInspectionResponse { screen: screen_name_of(&snapshot.state).to_owned(), elements })
    }

    /// The revision of the current state.
    pub fn revision(&self) -> (r: Result<u64, ApplicationError>)
        ensures
            r matches Ok(v) && v == self.view_spec().state.revision,
    {
        Ok(self.store.current_state().unwrap().revision)
    }

    /// Performs an application command.
    pub fn execute_command(&mut self, request: AgentCommandRequest) -> (r: Result<String, ApplicationError>)
        ensures
            match command_plan(
                request.command@,
                opt_view(request.arguments.value),
                opt_view(request.arguments.path),
                request.arguments.path_names_directory,
            ) {
                Err(e) => r matches Err(e2) && e2@ == e && final(self).view_spec() == old(self).view_spec(),
                Ok(op) => performed(
                    old(self).view_spec(),
                    final(self).view_spec(),
                    op,
                    text_result(r),
                    old(self).notes_repository().notes_model(),
                    final(self).notes_repository().notes_model(),
                    old(self).store_repository().submissions_never_fail(),
                    old(self).notes_repository().notes_never_fail(),
                ),
            },
            final(self).store_repository().submissions_never_fail() == old(
                self,
            ).store_repository().submissions_never_fail(),
    {
        let op = plan_command(&request)?;
        self.perform(op)
    }

    /// Performs a semantic UI action on the element that the UI currently
    /// shows; an action on a hidden or disabled element, one the element
    /// does not offer, or a `set_value` without a value is refused and
    /// changes nothing.
    pub fn execute_ui_action(&mut self, action: AgentActionRequest) -> (r: Result<String, ApplicationError>)
        ensures
            exists|titles: Seq<Seq<char>>|
                old(self).shows_titles(titles) && match plan_spec(
                    #[trigger] old(self).snapshot_with(titles, data_summary_text(titles.len())),
                    action.action@,
                    action.id@,
                    opt_view(action.value),
                    action.value_names_directory,
                ) {
                    Err(e) => r matches Err(e2) && e2@ == e && final(self).view_spec() == old(
                        self,
                    ).view_spec(),
                    Ok(op) => performed(
                        old(self).view_spec(),
                        final(self).view_spec(),
                        op,
                        text_result(r),
                        old(self).notes_repository().notes_model(),
                        final(self).notes_repository().notes_model(),
                        old(self).store_repository().submissions_never_fail(),
                        old(self).notes_repository().notes_never_fail(),
                    ),
                },
            final(self).store_repository().submissions_never_fail() == old(
                self,
            ).store_repository().submissions_never_fail(),
    {
        let snapshot = self.snapshot();
        let ghost v = snapshot@;
        proof {
            assert(v == self.snapshot_with(v.note_titles, data_summary_text(v.note_titles.len())));
        }
        let op = plan_ui_action(&snapshot, &action)?;
        self.perform(op)
    }

    fn fail(&mut self, error: ApplicationError) -> (r: Result<String, ApplicationError>)
        ensures
            r matches Err(e) && e@ == error@,
            final(self).notes_repository() == old(self).notes_repository(),
            final(self).store_repository() == old(self).store_repository(),
            final(self).view_spec() == (AgentView {
                state: after_event(old(self).view_spec().state, failure_event(error@)),
                ..old(self).view_spec()
            }),
    {
        self.store.report_error(&error);
        Err(error)
    }

    fn perform(&mut self, op: AgentOperation) -> (r: Result<String, ApplicationError>)
        ensures
            performed(
                old(self).view_spec(),
                final(self).view_spec(),
                op@,
                text_result(r),
                old(self).notes_repository().notes_model(),
                final(self).notes_repository().notes_model(),
                old(self).store_repository().submissions_never_fail(),
                old(self).notes_repository().notes_never_fail(),
            ),
            final(self).store_repository().submissions_never_fail() == old(
                self,
            ).store_repository().submissions_never_fail(),
    {
        match op {
            AgentOperation::Dispatch(a) => {
                let res = self.store.dispatch(a)?;
                Ok(res.message)
            },
            AgentOperation::Submit => {
                let res = self.store.submit()?;
                Ok(res.message)
            },
            AgentOperation::Read(v) => Ok(v),
            AgentOperation::NewNote => {
                self.note_title = String::new();
                self.note_body = String::new();
                self.selected_note = None;
                Ok("Neuer Notizentwurf".to_owned())
            },
            AgentOperation::SetNoteTitle(v) => {
                self.note_title = v;
                Ok("Notiztitel aktualisiert".to_owned())
            },
            AgentOperation::SetNoteBody(v) => {
                self.note_body = v;
                Ok("Notizinhalt aktualisiert".to_owned())
            },
            AgentOperation::SaveNote => {
                let saved = match &self.selected_note {
                    Some(id) => {
                        let id = id.duplicate();
                        proof {
                            crate::note_list::lemma_index_of_id_range(
                                self.notes.repository().notes_model(),
                                id@,
                            );
                        }
                        match self.notes.update_note(&id, self.note_title.as_str(), self.note_body.as_str()) {
                            Ok(()) => Ok(id),
                            Err(e) => Err(e),
                        }
                    },
                    None => self.notes.create_note(self.note_title.as_str(), self.note_body.as_str()),
                };
                match saved {
                    Ok(id) => {
                        self.selected_note = Some(id);
                        Ok("Notiz gespeichert".to_owned())
                    },
                    Err(e) => self.fail(e),
                }
            },
            AgentOperation::ArchiveNote => {
                let id = match &self.selected_note {
                    Some(id) => id.duplicate(),
                    None => return self.fail(ApplicationError::invalid_payload("Keine Notiz ausgewählt")),
                };
                proof {
                    crate::note_list::lemma_index_of_id_range(self.notes.repository().notes_model(), id@);
                }
                match self.notes.archive_note(&id) {
                    Ok(()) => {
                        self.selected_note = None;
                        self.note_title = String::new();
                        self.note_body = String::new();
                        Ok("Notiz archiviert".to_owned())
                    },
                    Err(e) => self.fail(e),
                }
            },
            AgentOperation::SelectNote(k) => {
                let notes = match self.notes.list_active_notes() {
                    Ok(n) => n,
                    Err(e) => return self.fail(e),
                };
                if k >= notes.len() {
                    return self.fail(ApplicationError::invalid_payload("Notiz nicht gefunden"));
                }
                self.selected_note = Some(notes[k].id().duplicate());
                self.note_title = notes[k].title().as_str().to_owned();
                self.note_body = notes[k].body().as_str().to_owned();
                Ok("Notiz ausgewählt".to_owned())
            },
            AgentOperation::CreateBackup => {
                match self.notes.repository_mut().create_backup() {
                    Ok(path) => {
                        let message = concat("Daten gesichert: ", path.as_str());
                        self.last_backup_path = Some(path);
                        Ok(message)
                    },
                    Err(e) => self.fail(e),
                }
            },
            AgentOperation::ResetUserData => {
                match self.notes.repository_mut().reset_user_data() {
                    Ok(()) => {
                        self.selected_note = None;
                        self.note_title = String::new();
                        self.note_body = String::new();
                        Ok("Benutzerdaten zurückgesetzt".to_owned())
                    },
                    Err(e) => self.fail(e),
                }
            },
        }
    }
}

impl<S: AppRepository + NoteRepository + UserDataRepository + Clone> AgentService for AgentApi<S> {
    fn get_state(&self) -> (r: Result<AgentStateResponse, ApplicationError>)
        ensures
            r matches Ok(s) && s.screen@ == screen_name(self.view_spec().state) && s.status@
                == text_spec(Locale::German, status_key(self.view_spec().state.status)) && s.busy
                == self.view_spec().state.busy && s.theme_mode@
                == self.view_spec().state.theme_mode.name() && s.note_title@
                == self.view_spec().note_title && s.note_body@ == self.view_spec().note_body
                && opt_view(s.selected_note_id) == self.view_spec().selected && opt_view(
                s.last_backup_path,
            ) == self.view_spec().backup && (match self.view_spec().state.error_kind {
                Some(k) => opt_view(s.error) == Some(k.user_message_spec()),
                None => s.error is None,
            }) && (match (self.view_spec().state.error_kind, self.view_spec().state.error_message) {
                (Some(k), Some(m)) => s.ui_error matches Some(u) && u.code@ == k.code_spec()
                    && u.message@ == k.user_message_spec() && u.diagnostic_message@ == m,
                _ => s.ui_error is None,
            }) && self.shows_notes(s.notes@.map_values(|n: AgentNoteSummary| (n.id@, n.title@))),
    {
        AgentApi::get_state(self)
    }

    fn inspect_ui(&self) -> (r: Result<UiInspectionResponse, ApplicationError>)
        ensures
            r matches Ok(resp) && resp.screen@ == screen_name(self.view_spec().state) && exists|titles: Seq<Seq<char>>|
                self.shows_titles(titles) && element_views(resp.elements@) == ui_elements_spec(
                    #[trigger] self.snapshot_with(titles, data_summary_text(titles.len())),
                ),
    {
        AgentApi::inspect_ui(self)
    }

    fn execute_command(&mut self, request: AgentCommandRequest) -> (r: Result<String, ApplicationError>)
        ensures
            match command_plan(
                request.command@,
                opt_view(request.arguments.value),
                opt_view(request.arguments.path),
                request.arguments.path_names_directory,
            ) {
                Err(e) => r matches Err(e2) && e2@ == e && final(self).view_spec() == old(self).view_spec(),
                Ok(op) => performed(
                    old(self).view_spec(),
                    final(self).view_spec(),
                    op,
                    text_result(r),
                    old(self).notes_repository().notes_model(),
                    final(self).notes_repository().notes_model(),
                    old(self).store_repository().submissions_never_fail(),
                    old(self).notes_repository().notes_never_fail(),
                ),
            },
            final(self).store_repository().submissions_never_fail() == old(
                self,
            ).store_repository().submissions_never_fail(),
    {
        AgentApi::execute_command(self, request)
    }

    fn execute_ui_action(&mut self, action: AgentActionRequest) -> (r: Result<String, ApplicationError>)
        ensures
            exists|titles: Seq<Seq<char>>|
                old(self).shows_titles(titles) && match plan_spec(
                    #[trigger] old(self).snapshot_with(titles, data_summary_text(titles.len())),
                    action.action@,
                    action.id@,
                    opt_view(action.value),
                    action.value_names_directory,
                ) {
                    Err(e) => r matches Err(e2) && e2@ == e && final(self).view_spec() == old(
                        self,
                    ).view_spec(),
                    Ok(op) => performed(
                        old(self).view_spec(),
                        final(self).view_spec(),
                        op,
                        text_result(r),
                        old(self).notes_repository().notes_model(),
                        final(self).notes_repository().notes_model(),
                        old(self).store_repository().submissions_never_fail(),
                        old(self).notes_repository().notes_never_fail(),
                    ),
                },
            final(self).store_repository().submissions_never_fail() == old(
                self,
            ).store_repository().submissions_never_fail(),
    {
        AgentApi::execute_ui_action(self, action)
    }
}

} // verus!
