//! Properties that span the operations of the library: what repeating an
//! action does, how revisions track changes, how refusals are reported,
//! and what the note and contract rules guarantee.
use crate::agent_ui::{
    is_first_element, lemma_element_index, metadata_spec, unblocked,
    dialog_elements, fixed_elements, item_elements, note_item_id, FIXED_ELEMENTS, command_plan, element_index, plan_spec, with_value, ui_elements_spec, ElementView, OperationView,
    SnapshotView,
};
use crate::contract::{
    declaration, declaration_kind, lines_of, metadata_from, quoted_value_spec, scan_from, scan_spec,
    AgentDeclarationKind, EntryView,
};
use crate::domain::{note_title_outcome, NoteView, NOTE_TITLE_MAX_LEN};
use crate::note_list::{active, contains_id, replaced, unarchived, without_id, other_id};
use crate::service::submission_accepts;
use crate::state::{
    can_submit_spec, file_path_outcome, reduce, ActiveDialog, AppActionView, AppEventView,
    AppStateView, ApplicationErrorView,
};
use crate::domain::AppStatus;
use crate::mcp::{offered_tools, tool_plan, ToolArgumentsView, ToolCallView};
use crate::protocol::safe_name_spec;
use crate::state::ThemeMode;
use crate::store::{after_event, commit, dispatch_outcome, failure_event, next_revision};
use crate::text::{is_ws, trim, trim_end, trim_start};
use vstd::prelude::*;

verus! {

broadcast use vstd::seq_lib::group_seq_properties;

/// Every action is idempotent: applying an accepted action again to its
/// result changes nothing and answers the same message.
pub proof fn lemma_actions_idempotent(s: AppStateView, a: AppActionView)
    requires
        reduce(s, a) is Ok,
    ensures
        reduce(reduce(s, a)->Ok_0.0, a) == reduce(s, a),
{
    match a {
        AppActionView::SelectFile { .. } => {},
        _ => {},
    }
}

/// Actions never touch the revision; only the store counts revisions.
pub proof fn lemma_actions_keep_revision(s: AppStateView, a: AppActionView)
    requires
        reduce(s, a) is Ok,
    ensures
        reduce(s, a)->Ok_0.0.revision == s.revision,
{
}

/// The revision changes exactly when the content of the state changes.
pub proof fn lemma_revision_tracks_changes(old: AppStateView, new: AppStateView)
    requires
        new.revision == old.revision,
    ensures
        (commit(old, new).revision == old.revision) <==> (new == old),
        commit(old, new) == (AppStateView { revision: commit(old, new).revision, ..new }),
{
}

/// Dispatching an accepted action a second time leaves the store as the
/// first dispatch left it: no new revision, nothing published.
pub proof fn lemma_repeated_dispatch_changes_nothing(s: AppStateView, a: AppActionView)
    requires
        reduce(s, a) is Ok,
    ensures
        dispatch_outcome(dispatch_outcome(s, a).0, a).0 == dispatch_outcome(s, a).0,
        dispatch_outcome(dispatch_outcome(s, a).0, a).1 == dispatch_outcome(s, a).1,
{
    let t = reduce(s, a)->Ok_0.0;
    lemma_actions_idempotent(s, a);
    lemma_actions_keep_revision(s, a);
    let c = commit(s, t);
    if t != s {
        assert(c == AppStateView { revision: next_revision(s.revision), ..t });
        assert(reduce(c, a) == Ok::<(AppStateView, Seq<char>), ApplicationErrorView>((c, reduce(s, a)->Ok_0.1))) by {
            match a {
                AppActionView::SelectFile { .. } => {},
                _ => {},
            }
        }
    }
}

/// A refused action leaves everything but the status and the error as it
/// was, and reports the error with its text and class.
pub proof fn lemma_refusal_is_reported(s: AppStateView, a: AppActionView)
    requires
        reduce(s, a) is Err,
    ensures
        ({
            let e = reduce(s, a)->Err_0;
            let t = dispatch_outcome(s, a).0;
            &&& dispatch_outcome(s, a).1 == Err::<Seq<char>, ApplicationErrorView>(e)
            &&& t.status == AppStatus::Error
            &&& t.error_message == Some(e.message())
            &&& t.error_kind == Some(e.kind())
            &&& t.input == s.input
            &&& t.selected_file == s.selected_file
            &&& t.busy == s.busy
            &&& t.active_dialog == s.active_dialog
            &&& t.theme_mode == s.theme_mode
        }),
{
}

/// Submission is offered exactly for the inputs that submission accepts,
/// whenever nothing is running.
pub proof fn lemma_submit_availability_matches_submission(s: AppStateView)
    requires
        !s.busy,
    ensures
        can_submit_spec(s) == submission_accepts(s.input),
{
}

/// A submission that has ended, either way, leaves the state idle.
pub proof fn lemma_submission_ends_idle(s: AppStateView, message: Seq<char>, kind: crate::state::ErrorKind)
    ensures
        !after_event(after_event(s, AppEventView::SubmissionStarted), AppEventView::SubmissionSucceeded).busy,
        after_event(after_event(s, AppEventView::SubmissionStarted), AppEventView::SubmissionSucceeded).status == AppStatus::Success,
        !after_event(after_event(s, AppEventView::SubmissionStarted), AppEventView::SubmissionFailed { message, kind }).busy,
        after_event(after_event(s, AppEventView::SubmissionStarted), AppEventView::SubmissionFailed { message, kind }).status == AppStatus::Error,
{
}

/// Reset returns to a ready, idle main screen with an empty input.
pub proof fn lemma_reset_returns_to_ready(s: AppStateView)
    ensures
        ({
            let t = reduce(s, AppActionView::Reset)->Ok_0.0;
            &&& reduce(s, AppActionView::Reset) is Ok
            &&& t.status == AppStatus::Ready
            &&& !t.busy
            &&& t.input.len() == 0
            &&& t.active_dialog is None
            &&& t.error_message is None
        }),
{
}

/// Closing one dialog never closes the other.
pub proof fn lemma_close_only_own_dialog(s: AppStateView)
    ensures
        s.active_dialog == Some(ActiveDialog::Settings) ==> reduce(s, AppActionView::CloseAbout)->Ok_0.0.active_dialog == Some(ActiveDialog::Settings),
        s.active_dialog == Some(ActiveDialog::About) ==> reduce(s, AppActionView::CloseSettings)->Ok_0.0.active_dialog == Some(ActiveDialog::About),
{
}

proof fn lemma_trim_start_first(s: Seq<char>)
    ensures
        trim_start(s).len() > 0 ==> !is_ws(trim_start(s)[0]),
        trim_start(s).len() <= s.len(),
    decreases s.len(),
{
    if s.len() > 0 && is_ws(s[0]) {
        lemma_trim_start_first(s.drop_first());
    }
}

proof fn lemma_trim_end_shape(s: Seq<char>)
    ensures
        trim_end(s).len() > 0 ==> !is_ws(trim_end(s).last()) && trim_end(s)[0] == s[0],
        trim_end(s).len() <= s.len(),
    decreases s.len(),
{
    if s.len() > 0 && is_ws(s.last()) {
        lemma_trim_end_shape(s.drop_last());
    }
}

/// An accepted title is non-empty, at most 200 characters long, and
/// neither starts nor ends with whitespace.
pub proof fn lemma_accepted_titles_are_trimmed(value: Seq<char>)
    requires
        note_title_outcome(value) is Ok,
    ensures
        ({
            let t = note_title_outcome(value)->Ok_0;
            &&& 0 < t.len() <= NOTE_TITLE_MAX_LEN
            &&& !is_ws(t[0])
            &&& !is_ws(t.last())
        }),
{
    lemma_trim_start_first(value);
    lemma_trim_end_shape(trim_start(value));
}

/// The file-path rule accepts what it gives back, unchanged: a path it
/// accepts is trimmed, so accepting it again yields the same path.
pub proof fn lemma_file_path_rule_idempotent(path: Seq<char>, is_directory: bool)
    requires
        file_path_outcome(path, is_directory) is Ok,
    ensures
        ({
            let t = file_path_outcome(path, is_directory)->Ok_0;
            file_path_outcome(t, is_directory) == Ok::<Seq<char>, ApplicationErrorView>(t)
        }),
{
    let t = trim(path);
    lemma_trim_start_first(path);
    lemma_trim_end_shape(trim_start(path));
    assert(trim_start(t) == t);
    assert(trim_end(t) == t);
}

/// Deleting a note that is not there changes nothing.
pub proof fn lemma_delete_absent_is_noop(s: Seq<NoteView>, id: Seq<char>)
    requires
        !contains_id(s, id),
    ensures
        without_id(s, id) == s,
    decreases s.len(),
{
    if s.len() > 0 {
        let p = s.drop_last();
        assert(!contains_id(p, id)) by {
            if contains_id(p, id) {
                let i = choose|i: int| 0 <= i < p.len() && (#[trigger] p[i]).id == id;
                assert(s[i] == p[i]);
            }
        }
        lemma_delete_absent_is_noop(p, id);
        p.lemma_filter_push(s.last(), other_id(id));
        assert(s.last().id != id) by {
            assert(s[s.len() - 1] == s.last());
        }
        assert(p.push(s.last()) =~= s);
    } else {
        assert(s.filter(other_id(id)) =~= s);
    }
}

/// After deleting a note no note with its identifier remains, so deleting
/// it again changes nothing.
pub proof fn lemma_delete_idempotent(s: Seq<NoteView>, id: Seq<char>)
    ensures
        !contains_id(without_id(s, id), id),
        without_id(without_id(s, id), id) == without_id(s, id),
{
    let w = without_id(s, id);
    assert(!contains_id(w, id)) by {
        if contains_id(w, id) {
            let i = choose|i: int| 0 <= i < w.len() && (#[trigger] w[i]).id == id;
            s.lemma_filter_pred(other_id(id), i);
        }
    }
    lemma_delete_absent_is_noop(w, id);
}

/// Replacing a note keeps the number of notes.
pub proof fn lemma_update_keeps_count(s: Seq<NoteView>, n: NoteView)
    ensures
        replaced(s, n).len() == s.len(),
{
    if contains_id(s, n.id) {
        let j = choose|j: int| 0 <= j < s.len() && (#[trigger] s[j]).id == n.id;
        crate::note_list::lemma_first_with_id_exists(s, n.id, j);
    }
}

/// The active notes are exactly the unarchived ones: none of them is archived.
pub proof fn lemma_active_notes_unarchived(s: Seq<NoteView>)
    ensures
        forall|i: int| 0 <= i < active(s).len() ==> !(#[trigger] active(s)[i]).archived,
{
    assert forall|i: int| 0 <= i < active(s).len() implies !(#[trigger] active(s)[i]).archived by {
        s.lemma_filter_pred(unarchived(), i);
    }
}

/// Every declaration that the scanner reports has a non-empty identifier
/// and a line number counted from 1.
pub proof fn lemma_scanned_entries_have_ids(source: Seq<char>)
    ensures
        scan_spec(source) matches Ok(es) ==> forall|k: int|
            0 <= k < es.len() ==> (#[trigger] es[k]).id.len() > 0 && es[k].line >= 1,
{
    lemma_scan_from_ids(lines_of(source), 0);
}

proof fn lemma_scan_from_ids(lines: Seq<Seq<char>>, i: int)
    ensures
        scan_from(lines, i) matches Ok(es) ==> forall|k: int|
            0 <= k < es.len() ==> (#[trigger] es[k]).id.len() > 0 && es[k].line >= 1,
    decreases lines.len() - i,
{
    if 0 <= i < lines.len() {
        lemma_scan_from_ids(lines, i + 1);
        match declaration(lines, i) {
            Some(Ok(e)) => {
                if let Ok(rest) = scan_from(lines, i + 1) {
                    let es = seq![e] + rest;
                    assert forall|k: int| 0 <= k < es.len() implies (#[trigger] es[k]).id.len() > 0 && es[k].line >= 1 by {
                        if k > 0 {
                            assert(es[k] == rest[k - 1]);
                        }
                    }
                }
            },
            _ => {},
        }
    }
}

/// A UI action is carried out only on an element that the UI shows and
/// that offers it; anything but reading and focusing also needs the element
/// enabled.
pub proof fn lemma_actions_only_on_shown_elements(
    v: SnapshotView,
    action: Seq<char>,
    id: Seq<char>,
    value: Option<Seq<char>>,
    dir: bool,
)
    requires
        plan_spec(v, action, id, value, dir) is Ok,
    ensures
        ({
            let i = element_index(ui_elements_spec(v), id);
            let e = ui_elements_spec(v)[i];
            &&& 0 <= i < ui_elements_spec(v).len()
            &&& e.id == id
            &&& e.actions.contains(action)
            &&& (action != "get_value"@ && action != "focus"@ ==> e.enabled)
        }),
{
    let els = ui_elements_spec(v);
    let i = element_index(els, id);
    if exists|j: int| 0 <= j < els.len() && (#[trigger] els[j]).id == id {
        let j = choose|j: int| 0 <= j < els.len() && (#[trigger] els[j]).id == id;
        crate::agent_ui::lemma_first_element_exists(els, id, j);
    }
}

/// The application command, with its `value` and `path` arguments and
/// whether the path names a directory, that performs `op`.
pub open spec fn command_for(op: OperationView) -> (Seq<char>, Option<Seq<char>>, Option<Seq<char>>, bool) {
    match op {
        OperationView::Dispatch(a) => match a {
            AppActionView::SetInput { value } => ("set_input"@, Some(value), None, false),
            AppActionView::Focus { element_id } => ("focus"@, Some(element_id), None, false),
            AppActionView::ClearFocus => ("clear_focus"@, None, None, false),
            AppActionView::SelectFile { path, is_directory } => ("select_file"@, None, Some(path), is_directory),
            AppActionView::RequestFilePicker => ("request_file_picker"@, None, None, false),
            AppActionView::CancelFileSelection => ("cancel_file_selection"@, None, None, false),
            AppActionView::Reset => ("reset"@, None, None, false),
            AppActionView::OpenAbout => ("open_about"@, None, None, false),
            AppActionView::CloseAbout => ("close_about"@, None, None, false),
            AppActionView::OpenSettings => ("open_settings"@, None, None, false),
            AppActionView::CloseSettings => ("close_settings"@, None, None, false),
            AppActionView::SetThemeMode { mode } => ("set_theme"@, Some(mode.name()), None, false),
        },
        OperationView::Submit => ("submit"@, None, None, false),
        OperationView::NewNote => ("new_note"@, None, None, false),
        OperationView::SetNoteTitle(v) => ("set_note_title"@, Some(v), None, false),
        OperationView::SetNoteBody(v) => ("set_note_body"@, Some(v), None, false),
        OperationView::SaveNote => ("save_note"@, None, None, false),
        OperationView::ArchiveNote => ("archive_note"@, None, None, false),
        OperationView::CreateBackup => ("create_backup"@, None, None, false),
        OperationView::ResetUserData => ("reset_user_data"@, None, None, false),
        OperationView::Read(_) => ("get_value"@, None, None, false),
        OperationView::SelectNote(_) => ("select_note"@, None, None, false),
    }
}

/// Every operation but reading a value and selecting an entry of the notes
/// list is what the command `command_for(op)` performs.
pub proof fn lemma_every_operation_has_a_command(op: OperationView)
    requires
        !(op is Read),
        !(op is SelectNote),
    ensures
        command_plan(command_for(op).0, command_for(op).1, command_for(op).2, command_for(op).3) == Ok::<
            OperationView,
            ApplicationErrorView,
        >(op),
{
    reveal_strlit("submit");
    reveal_strlit("reset");
    reveal_strlit("open_about");
    reveal_strlit("close_about");
    reveal_strlit("open_settings");
    reveal_strlit("close_settings");
    reveal_strlit("request_file_picker");
    reveal_strlit("cancel_file_selection");
    reveal_strlit("clear_focus");
    reveal_strlit("set_input");
    reveal_strlit("focus");
    reveal_strlit("select_file");
    reveal_strlit("set_theme");
    reveal_strlit("new_note");
    reveal_strlit("set_note_title");
    reveal_strlit("set_note_body");
    reveal_strlit("save_note");
    reveal_strlit("archive_note");
    reveal_strlit("create_backup");
    reveal_strlit("reset_user_data");
    reveal_strlit("system");
    reveal_strlit("light");
    reveal_strlit("dark");
    // Names of equal length differ at one of their characters.
    assert("clear_focus"@[2] != "close_about"@[2]);
    assert("focus"@[0] != "reset"@[0]);
    assert("select_file"@[0] != "close_about"@[0]);
    assert("select_file"@[0] != "clear_focus"@[0]);
    assert("set_theme"@[4] != "set_input"@[4]);
    assert("set_note_title"@[0] != "close_settings"@[0]);
    assert("set_note_body"@[0] != "open_settings"@[0]);
    assert("save_note"@[1] != "set_input"@[1]);
    assert("save_note"@[1] != "set_theme"@[1]);
    assert("create_backup"@[0] != "open_settings"@[0]);
    assert("create_backup"@[0] != "set_note_body"@[0]);
    let (c, a, p, d) = command_for(op);
    match op {
        OperationView::Dispatch(AppActionView::SetInput { .. }) => {
            assert(command_plan(c, a, p, d) == Ok::<OperationView, ApplicationErrorView>(op));
        },
        OperationView::Dispatch(AppActionView::Focus { element_id }) => {
            assert(command_plan(c, a, p, d) == with_value(
                a,
                |x: Seq<char>| OperationView::Dispatch(AppActionView::Focus { element_id: x }),
            ));
        },
        OperationView::Dispatch(AppActionView::ClearFocus) => {
            assert(command_plan(c, a, p, d) == Ok::<OperationView, ApplicationErrorView>(op));
        },
        OperationView::Dispatch(AppActionView::SelectFile { .. }) => {
            assert(command_plan(c, a, p, d) == Ok::<OperationView, ApplicationErrorView>(op));
        },
        OperationView::Dispatch(AppActionView::RequestFilePicker) => {
            assert(command_plan(c, a, p, d) == Ok::<OperationView, ApplicationErrorView>(op));
        },
        OperationView::Dispatch(AppActionView::CancelFileSelection) => {
            assert(command_plan(c, a, p, d) == Ok::<OperationView, ApplicationErrorView>(op));
        },
        OperationView::Dispatch(AppActionView::Reset) => {
            assert(command_plan(c, a, p, d) == Ok::<OperationView, ApplicationErrorView>(op));
        },
        OperationView::Dispatch(AppActionView::OpenAbout) => {
            assert(command_plan(c, a, p, d) == Ok::<OperationView, ApplicationErrorView>(op));
        },
        OperationView::Dispatch(AppActionView::CloseAbout) => {
            assert(command_plan(c, a, p, d) == Ok::<OperationView, ApplicationErrorView>(op));
        },
        OperationView::Dispatch(AppActionView::OpenSettings) => {
            assert(command_plan(c, a, p, d) == Ok::<OperationView, ApplicationErrorView>(op));
        },
        OperationView::Dispatch(AppActionView::CloseSettings) => {
            assert(command_plan(c, a, p, d) == Ok::<OperationView, ApplicationErrorView>(op));
        },
        OperationView::Dispatch(AppActionView::SetThemeMode { mode }) => {
            match mode {
                ThemeMode::System => {},
                ThemeMode::Light => assert("light"@.len() != "system"@.len()),
                ThemeMode::Dark => assert("dark"@.len() != "system"@.len() && "dark"@.len() != "light"@.len()),
            }
            assert(crate::state::theme_parse_outcome(mode.name()) == Ok::<ThemeMode, ApplicationErrorView>(mode));
            assert(command_plan(c, a, p, d) == Ok::<OperationView, ApplicationErrorView>(op));
        },
        OperationView::Submit => {
            assert(command_plan(c, a, p, d) == Ok::<OperationView, ApplicationErrorView>(op));
        },
        OperationView::NewNote => {
            assert(command_plan(c, a, p, d) == Ok::<OperationView, ApplicationErrorView>(op));
        },
        OperationView::SetNoteTitle(_) => {
            assert(command_plan(c, a, p, d) == with_value(a, |x: Seq<char>| OperationView::SetNoteTitle(x)));
        },
        OperationView::SetNoteBody(_) => {
            assert(command_plan(c, a, p, d) == with_value(a, |x: Seq<char>| OperationView::SetNoteBody(x)));
        },
        OperationView::SaveNote => {
            assert(command_plan(c, a, p, d) == Ok::<OperationView, ApplicationErrorView>(op));
        },
        OperationView::ArchiveNote => {
            assert(command_plan(c, a, p, d) == Ok::<OperationView, ApplicationErrorView>(op));
        },
        OperationView::CreateBackup => {
            assert(command_plan(c, a, p, d) == Ok::<OperationView, ApplicationErrorView>(op));
        },
        OperationView::ResetUserData => {
            assert(command_plan(c, a, p, d) == Ok::<OperationView, ApplicationErrorView>(op));
        },
        _ => {},
    }
}

/// UI actions and application commands cannot diverge: whatever an accepted
/// UI action does, other than reading a value or selecting an entry of the
/// notes list, some application command does exactly the same.
pub proof fn lemma_ui_actions_are_commands(
    v: SnapshotView,
    action: Seq<char>,
    id: Seq<char>,
    value: Option<Seq<char>>,
    dir: bool,
)
    requires
        plan_spec(v, action, id, value, dir) is Ok,
        !(plan_spec(v, action, id, value, dir)->Ok_0 is Read),
        !(plan_spec(v, action, id, value, dir)->Ok_0 is SelectNote),
    ensures
        exists|c: Seq<char>, a: Option<Seq<char>>, p: Option<Seq<char>>, d: bool|
            #[trigger] command_plan(c, a, p, d) == plan_spec(v, action, id, value, dir),
{
    let op = plan_spec(v, action, id, value, dir)->Ok_0;
    lemma_every_operation_has_a_command(op);
    let (c, a, p, d) = command_for(op);
    assert(command_plan(c, a, p, d) == plan_spec(v, action, id, value, dir));
}

/// The submit control of the tree is enabled exactly when submission can
/// start: no dialog is open, nothing is running, and the input is not
/// blank.
pub proof fn lemma_submit_enabled_iff_can_submit(v: SnapshotView)
    ensures
        ({
            let els = ui_elements_spec(v);
            let i = element_index(els, "main.submit"@);
            &&& 0 <= i < els.len()
            &&& els[i].enabled == (unblocked(v.state) && can_submit_spec(v.state))
        }),
{
    let els = ui_elements_spec(v);
    let f = fixed_elements(v);
    assert(els == f + item_elements(v) + dialog_elements(v));
    assert(f.len() == FIXED_ELEMENTS);
    assert(els[0] == f[0]);
    assert(els[1] == f[1]);
    reveal_strlit("main.input");
    reveal_strlit("main.submit");
    assert(els[0].id.len() != els[1].id.len());
    assert(is_first_element(els, "main.submit"@, 1));
    lemma_element_index(els, "main.submit"@, 1);
}

/// Every tool that the server lists is one that a call can name: calling
/// it is never answered as an unknown tool.
pub proof fn lemma_offered_tools_are_known(i: int, a: ToolArgumentsView)
    requires
        0 <= i < offered_tools().len(),
    ensures
        tool_plan(offered_tools()[i], a) != Err::<ToolCallView, Seq<char>>(
            "unknown tool: "@ + offered_tools()[i],
        ),
{
    reveal_strlit("app_state");
    reveal_strlit("ui_inspect");
    reveal_strlit("app_command");
    reveal_strlit("ui_action");
    reveal_strlit("ui_screenshot");
    reveal_strlit("unknown tool: ");
    reveal_strlit("missing string argument: ");
    reveal_strlit("screenshot name may contain only ASCII letters, numbers, '-' or '_'");
    let name = offered_tools()[i];
    let unknown = "unknown tool: "@ + name;
    assert(unknown[0] == 'u');
    match tool_plan(name, a) {
        Ok(_) => {},
        Err(m) => {
            assert(m[0] != 'u');
        },
    }
}

/// Whether the tree `els` holds an element with identifier `id`.
pub open spec fn shows(els: Seq<ElementView>, id: Seq<char>) -> bool {
    exists|i: int| 0 <= i < els.len() && (#[trigger] els[i]).id == id
}

/// The About menu item is always in the semantic tree; the About dialog and
/// its close button are in it exactly while the About dialog is open.
pub proof fn lemma_about_dialog_shown_while_open(v: SnapshotView)
    ensures
        shows(ui_elements_spec(v), "help.about"@),
        shows(ui_elements_spec(v), "about.dialog"@) <==> v.state.active_dialog == Some(ActiveDialog::About),
        shows(ui_elements_spec(v), "about.close"@) <==> v.state.active_dialog == Some(ActiveDialog::About),
{
    let f = fixed_elements(v);
    let items = item_elements(v);
    let d = dialog_elements(v);
    let els = ui_elements_spec(v);
    assert(els == f + items + d);
    assert(f.len() == FIXED_ELEMENTS);
    assert(els[6] == f[6]);
    reveal_strlit("help.about");
    reveal_strlit("about.dialog");
    reveal_strlit("about.close");
    reveal_strlit("notes.item.");
    reveal_strlit("main.submit");
    reveal_strlit("main.status");
    reveal_strlit("notes.title");
    reveal_strlit("settings.dialog");
    reveal_strlit("settings.theme.system");
    reveal_strlit("settings.theme.light");
    reveal_strlit("settings.theme.dark");
    reveal_strlit("settings.data.summary");
    reveal_strlit("settings.data.backup");
    reveal_strlit("settings.close");
    assert(shows(els, "help.about"@));
    if v.state.active_dialog == Some(ActiveDialog::About) {
        let k = (f.len() + items.len()) as int;
        assert(els[k] == d[0]);
        assert(els[k + 1] == d[1]);
        assert(shows(els, "about.dialog"@));
        assert(shows(els, "about.close"@));
    } else {
        reveal_strlit("main.input");
        reveal_strlit("main.reset");
        reveal_strlit("main.file-picker");
        reveal_strlit("main.selected-file");
        reveal_strlit("file.settings");
        reveal_strlit("notes.new");
        reveal_strlit("notes.body");
        reveal_strlit("notes.save");
        reveal_strlit("notes.archive");
        assert forall|j: int| 0 <= j < FIXED_ELEMENTS implies (#[trigger] f[j]).id[0] != 'a' by {
            assert(j == 0 || j == 1 || j == 2 || j == 3 || j == 4 || j == 5 || j == 6 || j == 7
                || j == 8 || j == 9 || j == 10 || j == 11 || j == 12);
        }
        assert forall|j: int| 0 <= j < d.len() implies (#[trigger] d[j]).id[0] == 's' by {
            assert(j == 0 || j == 1 || j == 2 || j == 3 || j == 4 || j == 5 || j == 6);
        }
        assert forall|i: int| 0 <= i < els.len() implies (#[trigger] els[i]).id[0] != 'a' by {
            if i < f.len() {
                assert(els[i] == f[i]);
            } else if i < f.len() + items.len() {
                let k = i - f.len();
                assert(els[i] == items[k]);
                assert(note_item_id(k as nat)[0] == 'n');
            } else {
                let k = i - f.len() - items.len();
                assert(els[i] == d[k]);
            }
        }
        assert(!shows(els, "about.dialog"@)) by {
            if shows(els, "about.dialog"@) {
                let i = choose|i: int| 0 <= i < els.len() && (#[trigger] els[i]).id == "about.dialog"@;
                assert(els[i].id[0] != 'a');
            }
        }
        assert(!shows(els, "about.close"@)) by {
            if shows(els, "about.close"@) {
                let i = choose|i: int| 0 <= i < els.len() && (#[trigger] els[i]).id == "about.close"@;
                assert(els[i].id[0] != 'a');
            }
        }
    }
}

/// Whether `n` holds no path separator and no dot.
pub open spec fn plain_name(n: Seq<char>) -> bool {
    forall|i: int| 0 <= i < n.len() ==> #[trigger] n[i] != '/' && n[i] != '\\' && n[i] != '.'
}

/// A screenshot is only ever written inside `artifacts/screenshots/`: the
/// name between that directory and `.png` holds no path separator and no dot.
pub proof fn lemma_screenshots_stay_in_their_directory(name: Seq<char>, a: ToolArgumentsView)
    ensures
        tool_plan(name, a) matches Ok(ToolCallView::Screenshot { path }) ==> exists|n: Seq<char>|
            #[trigger] plain_name(n) && path == "artifacts/screenshots/"@ + n + ".png"@,
{
    if tool_plan(name, a) is Ok && tool_plan(name, a)->Ok_0 is Screenshot {
        let n = match a.name {
            Some(n) => n,
            None => "mcp"@,
        };
        reveal_strlit("mcp");
        reveal_strlit("app_state");
        reveal_strlit("ui_inspect");
        reveal_strlit("app_command");
        reveal_strlit("ui_action");
        reveal_strlit("ui_screenshot");
        assert(name == "ui_screenshot"@);
        assert(safe_name_spec(n));
        assert(plain_name(n));
    }
}

proof fn lemma_metadata_values_0()
    ensures
        metadata_spec("main.input"@) == Some(("textbox"@, seq!["get_value"@, "set_value"@, "focus"@])),
        metadata_spec("main.submit"@) == Some(("button"@, seq!["click"@, "focus"@])),
        metadata_spec("main.reset"@) == Some(("button"@, seq!["click"@, "focus"@])),
        metadata_spec("main.file-picker"@) == Some(("button"@, seq!["click"@, "get_value"@, "set_value"@, "focus"@])),
        metadata_spec("main.selected-file"@) == Some(("status"@, seq!["get_value"@])),
        metadata_spec("main.status"@) == Some(("status"@, Seq::<Seq<char>>::empty())),
        metadata_spec("help.about"@) == Some(("menuitem"@, seq!["click"@])),
        metadata_spec("about.dialog"@) == Some(("dialog"@, Seq::<Seq<char>>::empty())),
{
    reveal_strlit("main.input");
    reveal_strlit("main.submit");
    reveal_strlit("main.reset");
    reveal_strlit("main.file-picker");
    reveal_strlit("main.selected-file");
    reveal_strlit("main.status");
    reveal_strlit("help.about");
    reveal_strlit("about.dialog");
    reveal_strlit("about.close");
    reveal_strlit("file.settings");
    reveal_strlit("notes.new");
    reveal_strlit("notes.title");
    reveal_strlit("notes.body");
    reveal_strlit("notes.save");
    reveal_strlit("notes.archive");
    reveal_strlit("settings.dialog");
    reveal_strlit("settings.theme.system");
    reveal_strlit("settings.theme.light");
    reveal_strlit("settings.theme.dark");
    reveal_strlit("settings.data.summary");
    reveal_strlit("settings.data.backup");
    reveal_strlit("settings.close");
    assert("main.input"@.len() == 10);
    assert("main.submit"@.len() == 11);
    assert("main.reset"@.len() == 10);
    assert("main.file-picker"@.len() == 16);
    assert("main.selected-file"@.len() == 18);
    assert("main.status"@.len() == 11);
    assert("help.about"@.len() == 10);
    assert("about.dialog"@.len() == 12);
    assert("about.close"@.len() == 11);
    assert("file.settings"@.len() == 13);
    assert("notes.new"@.len() == 9);
    assert("notes.title"@.len() == 11);
    assert("notes.body"@.len() == 10);
    assert("notes.save"@.len() == 10);
    assert("notes.archive"@.len() == 13);
    assert("settings.dialog"@.len() == 15);
    assert("settings.theme.system"@.len() == 21);
    assert("settings.theme.light"@.len() == 20);
    assert("settings.theme.dark"@.len() == 19);
    assert("settings.data.summary"@.len() == 21);
    assert("settings.data.backup"@.len() == 20);
    assert("settings.close"@.len() == 14);
    assert("main.reset"@[5] != "main.input"@[5]);
    assert("main.status"@[6] != "main.submit"@[6]);
    assert("help.about"@[0] != "main.input"@[0]);
    assert("help.about"@[0] != "main.reset"@[0]);
}

proof fn lemma_metadata_values_1()
    ensures
        metadata_spec("about.close"@) == Some(("button"@, seq!["click"@, "focus"@])),
        metadata_spec("file.settings"@) == Some(("menuitem"@, seq!["click"@])),
        metadata_spec("notes.new"@) == Some(("button"@, seq!["click"@])),
        metadata_spec("notes.title"@) == Some(("textbox"@, seq!["get_value"@, "set_value"@])),
        metadata_spec("notes.body"@) == Some(("textbox"@, seq!["get_value"@, "set_value"@])),
        metadata_spec("notes.save"@) == Some(("button"@, seq!["click"@])),
        metadata_spec("notes.archive"@) == Some(("button"@, seq!["click"@])),
{
    reveal_strlit("main.input");
    reveal_strlit("main.submit");
    reveal_strlit("main.reset");
    reveal_strlit("main.file-picker");
    reveal_strlit("main.selected-file");
    reveal_strlit("main.status");
    reveal_strlit("help.about");
    reveal_strlit("about.dialog");
    reveal_strlit("about.close");
    reveal_strlit("file.settings");
    reveal_strlit("notes.new");
    reveal_strlit("notes.title");
    reveal_strlit("notes.body");
    reveal_strlit("notes.save");
    reveal_strlit("notes.archive");
    reveal_strlit("settings.dialog");
    reveal_strlit("settings.theme.system");
    reveal_strlit("settings.theme.light");
    reveal_strlit("settings.theme.dark");
    reveal_strlit("settings.data.summary");
    reveal_strlit("settings.data.backup");
    reveal_strlit("settings.close");
    assert("main.input"@.len() == 10);
    assert("main.submit"@.len() == 11);
    assert("main.reset"@.len() == 10);
    assert("main.file-picker"@.len() == 16);
    assert("main.selected-file"@.len() == 18);
    assert("main.status"@.len() == 11);
    assert("help.about"@.len() == 10);
    assert("about.dialog"@.len() == 12);
    assert("about.close"@.len() == 11);
    assert("file.settings"@.len() == 13);
    assert("notes.new"@.len() == 9);
    assert("notes.title"@.len() == 11);
    assert("notes.body"@.len() == 10);
    assert("notes.save"@.len() == 10);
    assert("notes.archive"@.len() == 13);
    assert("settings.dialog"@.len() == 15);
    assert("settings.theme.system"@.len() == 21);
    assert("settings.theme.light"@.len() == 20);
    assert("settings.theme.dark"@.len() == 19);
    assert("settings.data.summary"@.len() == 21);
    assert("settings.data.backup"@.len() == 20);
    assert("settings.close"@.len() == 14);
    assert("about.close"@[0] != "main.submit"@[0]);
    assert("about.close"@[0] != "main.status"@[0]);
    assert("notes.title"@[0] != "main.submit"@[0]);
    assert("notes.title"@[0] != "main.status"@[0]);
    assert("notes.title"@[0] != "about.close"@[0]);
    assert("notes.body"@[0] != "main.input"@[0]);
    assert("notes.body"@[0] != "main.reset"@[0]);
    assert("notes.body"@[0] != "help.about"@[0]);
    assert("notes.save"@[0] != "main.input"@[0]);
    assert("notes.save"@[0] != "main.reset"@[0]);
    assert("notes.save"@[0] != "help.about"@[0]);
    assert("notes.save"@[6] != "notes.body"@[6]);
    assert("notes.archive"@[0] != "file.settings"@[0]);
}

proof fn lemma_metadata_values_2()
    ensures
        metadata_spec("settings.dialog"@) == Some(("dialog"@, Seq::<Seq<char>>::empty())),
        metadata_spec("settings.theme.system"@) == Some(("radio"@, seq!["click"@])),
        metadata_spec("settings.theme.light"@) == Some(("radio"@, seq!["click"@])),
        metadata_spec("settings.theme.dark"@) == Some(("radio"@, seq!["click"@])),
        metadata_spec("settings.data.summary"@) == Some(("status"@, seq!["get_value"@])),
        metadata_spec("settings.data.backup"@) == Some(("button"@, seq!["click"@])),
        metadata_spec("settings.close"@) == Some(("button"@, seq!["click"@, "focus"@])),
{
    reveal_strlit("main.input");
    reveal_strlit("main.submit");
    reveal_strlit("main.reset");
    reveal_strlit("main.file-picker");
    reveal_strlit("main.selected-file");
    reveal_strlit("main.status");
    reveal_strlit("help.about");
    reveal_strlit("about.dialog");
    reveal_strlit("about.close");
    reveal_strlit("file.settings");
    reveal_strlit("notes.new");
    reveal_strlit("notes.title");
    reveal_strlit("notes.body");
    reveal_strlit("notes.save");
    reveal_strlit("notes.archive");
    reveal_strlit("settings.dialog");
    reveal_strlit("settings.theme.system");
    reveal_strlit("settings.theme.light");
    reveal_strlit("settings.theme.dark");
    reveal_strlit("settings.data.summary");
    reveal_strlit("settings.data.backup");
    reveal_strlit("settings.close");
    assert("main.input"@.len() == 10);
    assert("main.submit"@.len() == 11);
    assert("main.reset"@.len() == 10);
    assert("main.file-picker"@.len() == 16);
    assert("main.selected-file"@.len() == 18);
    assert("main.status"@.len() == 11);
    assert("help.about"@.len() == 10);
    assert("about.dialog"@.len() == 12);
    assert("about.close"@.len() == 11);
    assert("file.settings"@.len() == 13);
    assert("notes.new"@.len() == 9);
    assert("notes.title"@.len() == 11);
    assert("notes.body"@.len() == 10);
    assert("notes.save"@.len() == 10);
    assert("notes.archive"@.len() == 13);
    assert("settings.dialog"@.len() == 15);
    assert("settings.theme.system"@.len() == 21);
    assert("settings.theme.light"@.len() == 20);
    assert("settings.theme.dark"@.len() == 19);
    assert("settings.data.summary"@.len() == 21);
    assert("settings.data.backup"@.len() == 20);
    assert("settings.close"@.len() == 14);
    assert("settings.data.summary"@[9] != "settings.theme.system"@[9]);
    assert("settings.data.backup"@[9] != "settings.theme.light"@[9]);
}

/// What the metadata table gives for each fixed identifier.
proof fn lemma_metadata_values()
    ensures
        metadata_spec("main.input"@) == Some(("textbox"@, seq!["get_value"@, "set_value"@, "focus"@])),
        metadata_spec("main.submit"@) == Some(("button"@, seq!["click"@, "focus"@])),
        metadata_spec("main.reset"@) == Some(("button"@, seq!["click"@, "focus"@])),
        metadata_spec("main.file-picker"@) == Some(("button"@, seq!["click"@, "get_value"@, "set_value"@, "focus"@])),
        metadata_spec("main.selected-file"@) == Some(("status"@, seq!["get_value"@])),
        metadata_spec("main.status"@) == Some(("status"@, Seq::<Seq<char>>::empty())),
        metadata_spec("help.about"@) == Some(("menuitem"@, seq!["click"@])),
        metadata_spec("about.dialog"@) == Some(("dialog"@, Seq::<Seq<char>>::empty())),
        metadata_spec("about.close"@) == Some(("button"@, seq!["click"@, "focus"@])),
        metadata_spec("file.settings"@) == Some(("menuitem"@, seq!["click"@])),
        metadata_spec("notes.new"@) == Some(("button"@, seq!["click"@])),
        metadata_spec("notes.title"@) == Some(("textbox"@, seq!["get_value"@, "set_value"@])),
        metadata_spec("notes.body"@) == Some(("textbox"@, seq!["get_value"@, "set_value"@])),
        metadata_spec("notes.save"@) == Some(("button"@, seq!["click"@])),
        metadata_spec("notes.archive"@) == Some(("button"@, seq!["click"@])),
        metadata_spec("settings.dialog"@) == Some(("dialog"@, Seq::<Seq<char>>::empty())),
        metadata_spec("settings.theme.system"@) == Some(("radio"@, seq!["click"@])),
        metadata_spec("settings.theme.light"@) == Some(("radio"@, seq!["click"@])),
        metadata_spec("settings.theme.dark"@) == Some(("radio"@, seq!["click"@])),
        metadata_spec("settings.data.summary"@) == Some(("status"@, seq!["get_value"@])),
        metadata_spec("settings.data.backup"@) == Some(("button"@, seq!["click"@])),
        metadata_spec("settings.close"@) == Some(("button"@, seq!["click"@, "focus"@])),
{
    lemma_metadata_values_0();
    lemma_metadata_values_1();
    lemma_metadata_values_2();
}

/// Every element of the semantic UI tree has a role and actions, and they
/// are those that the metadata table gives for its identifier.
pub proof fn lemma_tree_follows_metadata(v: SnapshotView)
    ensures
        forall|i: int|
            0 <= i < ui_elements_spec(v).len() ==> metadata_spec(#[trigger] ui_elements_spec(v)[i].id)
                == Some((ui_elements_spec(v)[i].role, ui_elements_spec(v)[i].actions)),
{
    lemma_metadata_values();
    reveal_strlit("main.input");
    reveal_strlit("main.submit");
    reveal_strlit("main.reset");
    reveal_strlit("main.file-picker");
    reveal_strlit("main.selected-file");
    reveal_strlit("main.status");
    reveal_strlit("help.about");
    reveal_strlit("about.dialog");
    reveal_strlit("about.close");
    reveal_strlit("file.settings");
    reveal_strlit("notes.new");
    reveal_strlit("notes.title");
    reveal_strlit("notes.body");
    reveal_strlit("notes.save");
    reveal_strlit("notes.archive");
    reveal_strlit("settings.dialog");
    reveal_strlit("settings.theme.system");
    reveal_strlit("settings.theme.light");
    reveal_strlit("settings.theme.dark");
    reveal_strlit("settings.data.summary");
    reveal_strlit("settings.data.backup");
    reveal_strlit("settings.close");
    reveal_strlit("notes.item.");
    let f = fixed_elements(v);
    let items = item_elements(v);
    let d = dialog_elements(v);
    let els = ui_elements_spec(v);
    assert(els == f + items + d);
    assert forall|j: int| 0 <= j < FIXED_ELEMENTS implies metadata_spec(#[trigger] f[j].id) == Some(
        (f[j].role, f[j].actions),
    ) by {
        if j == 0 {
            assert(metadata_spec(f[0].id) == Some((f[0].role, f[0].actions)));
        } else if j == 1 {
            assert(metadata_spec(f[1].id) == Some((f[1].role, f[1].actions)));
        } else if j == 2 {
            assert(metadata_spec(f[2].id) == Some((f[2].role, f[2].actions)));
        } else if j == 3 {
            assert(metadata_spec(f[3].id) == Some((f[3].role, f[3].actions)));
        } else if j == 4 {
            assert(metadata_spec(f[4].id) == Some((f[4].role, f[4].actions)));
        } else if j == 5 {
            assert(metadata_spec(f[5].id) == Some((f[5].role, f[5].actions)));
        } else if j == 6 {
            assert(metadata_spec(f[6].id) == Some((f[6].role, f[6].actions)));
        } else if j == 7 {
            assert(metadata_spec(f[7].id) == Some((f[7].role, f[7].actions)));
        } else if j == 8 {
            assert(metadata_spec(f[8].id) == Some((f[8].role, f[8].actions)));
        } else if j == 9 {
            assert(metadata_spec(f[9].id) == Some((f[9].role, f[9].actions)));
        } else if j == 10 {
            assert(metadata_spec(f[10].id) == Some((f[10].role, f[10].actions)));
        } else if j == 11 {
            assert(metadata_spec(f[11].id) == Some((f[11].role, f[11].actions)));
        } else if j == 12 {
            assert(metadata_spec(f[12].id) == Some((f[12].role, f[12].actions)));
        }
    }
    assert forall|j: int| 0 <= j < d.len() implies metadata_spec(#[trigger] d[j].id) == Some(
        (d[j].role, d[j].actions),
    ) by {
        match v.state.active_dialog {
            Some(ActiveDialog::About) => {
                if j == 0 {
                    assert(metadata_spec(d[0].id) == Some((d[0].role, d[0].actions)));
                } else if j == 1 {
                    assert(metadata_spec(d[1].id) == Some((d[1].role, d[1].actions)));
                }
            },
            Some(ActiveDialog::Settings) => {
                if j == 0 {
                    assert(metadata_spec(d[0].id) == Some((d[0].role, d[0].actions)));
                } else if j == 1 {
                    assert(metadata_spec(d[1].id) == Some((d[1].role, d[1].actions)));
                } else if j == 2 {
                    assert(metadata_spec(d[2].id) == Some((d[2].role, d[2].actions)));
                } else if j == 3 {
                    assert(metadata_spec(d[3].id) == Some((d[3].role, d[3].actions)));
                } else if j == 4 {
                    assert(metadata_spec(d[4].id) == Some((d[4].role, d[4].actions)));
                } else if j == 5 {
                    assert(metadata_spec(d[5].id) == Some((d[5].role, d[5].actions)));
                } else if j == 6 {
                    assert(metadata_spec(d[6].id) == Some((d[6].role, d[6].actions)));
                }
            },
            None => {},
        }
    }
    assert forall|k: int| 0 <= k < items.len() implies metadata_spec(#[trigger] items[k].id) == Some(
        (items[k].role, items[k].actions),
    ) by {
        let id = note_item_id(k as nat);
        crate::text::lemma_decimal_digits(k as nat);
        assert(id.len() >= 12);
        assert(id.subrange(0, 11) =~= "notes.item."@);
        assert forall|t: int| 0 <= t < 11 implies id[t] == "notes.item."@[t] by {
            assert(id[t] == id.subrange(0, 11)[t]);
        }
                assert(id[0] != "main.file-picker"@[0]);
                assert(id[0] != "main.selected-file"@[0]);
                assert(id[0] != "about.dialog"@[0]);
                assert(id[0] != "file.settings"@[0]);
                assert(id[6] != "notes.archive"@[6]);
                assert(id[0] != "settings.dialog"@[0]);
                assert(id[0] != "settings.theme.system"@[0]);
                assert(id[0] != "settings.theme.light"@[0]);
                assert(id[0] != "settings.theme.dark"@[0]);
                assert(id[0] != "settings.data.summary"@[0]);
                assert(id[0] != "settings.data.backup"@[0]);
                assert(id[0] != "settings.close"@[0]);
    }
    assert forall|i: int| 0 <= i < els.len() implies metadata_spec(#[trigger] els[i].id) == Some(
        (els[i].role, els[i].actions),
    ) by {
        if i < f.len() {
            assert(els[i] == f[i]);
        } else if i < f.len() + items.len() {
            assert(els[i] == items[i - f.len()]);
        } else {
            assert(els[i] == d[i - f.len() - items.len()]);
        }
    }
}

/// Each theme radio of the settings dialog selects the mode it is named
/// after: while the dialog is open, clicking `settings.theme.<name>` sets the
/// theme mode whose persisted name is `<name>`.
pub proof fn lemma_theme_radio_selects_its_mode(
    v: SnapshotView,
    m: ThemeMode,
    value: Option<Seq<char>>,
    dir: bool,
)
    requires
        v.state.active_dialog == Some(ActiveDialog::Settings),
    ensures
        plan_spec(v, "click"@, "settings.theme."@ + m.name(), value, dir) == Ok::<
            OperationView,
            ApplicationErrorView,
        >(OperationView::Dispatch(AppActionView::SetThemeMode { mode: m })),
{
    reveal_strlit("settings.theme.");
    reveal_strlit("system");
    reveal_strlit("light");
    reveal_strlit("dark");
    reveal_strlit("click");
    reveal_strlit("get_value");
    reveal_strlit("focus");
    reveal_strlit("set_value");
    reveal_strlit("main.input");
    reveal_strlit("main.submit");
    reveal_strlit("main.reset");
    reveal_strlit("main.file-picker");
    reveal_strlit("main.selected-file");
    reveal_strlit("main.status");
    reveal_strlit("help.about");
    reveal_strlit("about.close");
    reveal_strlit("file.settings");
    reveal_strlit("notes.new");
    reveal_strlit("notes.title");
    reveal_strlit("notes.body");
    reveal_strlit("notes.save");
    reveal_strlit("notes.archive");
    reveal_strlit("notes.item.");
    reveal_strlit("settings.dialog");
    reveal_strlit("settings.close");
    reveal_strlit("settings.theme.system");
    reveal_strlit("settings.theme.light");
    reveal_strlit("settings.theme.dark");
    let id = "settings.theme."@ + m.name();
    let off: int = match m {
        ThemeMode::System => 1,
        ThemeMode::Light => 2,
        ThemeMode::Dark => 3,
    };
    match m {
        ThemeMode::System => assert(id =~= "settings.theme.system"@),
        ThemeMode::Light => assert(id =~= "settings.theme.light"@),
        ThemeMode::Dark => assert(id =~= "settings.theme.dark"@),
    }
    let f = fixed_elements(v);
    let items = item_elements(v);
    let d = dialog_elements(v);
    let els = ui_elements_spec(v);
    assert(els == f + items + d);
    let k = f.len() + items.len() + off;
    assert(els[k] == d[off]);
    assert(els[k].id == id);
    assert forall|j: int| 0 <= j < k implies (#[trigger] els[j]).id != id by {
        if j < f.len() {
            assert(els[j] == f[j]);
            assert(j == 0 || j == 1 || j == 2 || j == 3 || j == 4 || j == 5 || j == 6 || j == 7
                || j == 8 || j == 9 || j == 10 || j == 11 || j == 12);
            assert(f[j].id[0] != 's');
        } else if j < f.len() + items.len() {
            let q = j - f.len();
            assert(els[j] == items[q]);
            assert(note_item_id(q as nat)[0] == 'n');
        } else {
            let q = j - f.len() - items.len();
            assert(els[j] == d[q]);
            assert(d[q].id.len() != id.len());
        }
    }
    assert(is_first_element(els, id, k));
    lemma_element_index(els, id, k);
    assert(els[k].actions[0] == "click"@);
    assert(els[k].actions.contains("click"@));
    assert(els[k].enabled);
    assert("click"@ != "get_value"@);
    assert("click"@[0] != "focus"@[0]);
    assert("click"@ != "set_value"@);
    assert(items.len() == v.note_titles.len());
    assert(!(FIXED_ELEMENTS <= k < FIXED_ELEMENTS + v.note_titles.len()));
    assert(id != "main.submit"@ && id != "main.reset"@ && id != "main.file-picker"@);
    assert(id != "help.about"@ && id != "file.settings"@ && id != "about.close"@);
    assert(id.len() != "settings.close"@.len());
    assert(plan_spec(v, "click"@, id, value, dir) == crate::agent_ui::click_operation(v, id, "click"@, k));
    match m {
        ThemeMode::System => {},
        ThemeMode::Light => assert(id != "settings.theme.system"@),
        ThemeMode::Dark => assert(id != "settings.theme.system"@ && id != "settings.theme.light"@),
    }
}

/// The archive control of the tree is enabled exactly when archiving can
/// proceed: no dialog is open and a note is selected.
pub proof fn lemma_archive_enabled_iff_selected(v: SnapshotView)
    ensures
        ({
            let els = ui_elements_spec(v);
            let i = element_index(els, "notes.archive"@);
            &&& 0 <= i < els.len()
            &&& els[i].enabled == (unblocked(v.state) && v.has_selection)
        }),
{
    reveal_strlit("main.input");
    reveal_strlit("main.submit");
    reveal_strlit("main.reset");
    reveal_strlit("main.file-picker");
    reveal_strlit("main.selected-file");
    reveal_strlit("main.status");
    reveal_strlit("help.about");
    reveal_strlit("file.settings");
    reveal_strlit("notes.new");
    reveal_strlit("notes.title");
    reveal_strlit("notes.body");
    reveal_strlit("notes.save");
    reveal_strlit("notes.archive");
    let els = ui_elements_spec(v);
    let f = fixed_elements(v);
    assert(els == f + item_elements(v) + dialog_elements(v));
    assert(f.len() == FIXED_ELEMENTS);
    let id = "notes.archive"@;
    assert forall|j: int| 0 <= j < 12 implies (#[trigger] els[j]).id != id by {
        assert(els[j] == f[j]);
        assert(j == 0 || j == 1 || j == 2 || j == 3 || j == 4 || j == 5 || j == 6 || j == 7
            || j == 8 || j == 9 || j == 10 || j == 11);
        assert(f[j].id.len() != id.len() || f[j].id[0] != id[0]);
    }
    assert(els[12] == f[12]);
    assert(is_first_element(els, id, 12));
    lemma_element_index(els, id, 12);
}

/// Typing into the input clears a reported error: an accepted `SetInput`
/// leaves the new input in the state and no error message or error class,
/// and changes nothing else, in the reducer's result; the store keeps the
/// input and the cleared error after dispatching it.
pub proof fn lemma_set_input_clears_the_error(s: AppStateView, value: Seq<char>)
    requires
        reduce(s, AppActionView::SetInput { value }) is Ok,
    ensures
        ({
            let t = reduce(s, AppActionView::SetInput { value })->Ok_0.0;
            &&& t.input == value
            &&& t.error_message is None
            &&& t.error_kind is None
            &&& t == AppStateView { input: t.input, error_message: None, error_kind: None, ..s }
        }),
        ({
            let kept = dispatch_outcome(s, AppActionView::SetInput { value }).0;
            &&& kept.input == value
            &&& kept.error_message is None
            &&& kept.error_kind is None
        }),
{
}

/// The `app_command` tool forwards its arguments unchanged: the command it
/// names and the value it carries (empty only when no value is given); and
/// calls that differ only in other arguments plan the same command.
pub proof fn lemma_app_command_forwards_its_arguments(a: ToolArgumentsView, b: ToolArgumentsView)
    requires
        a.command is Some,
    ensures
        tool_plan("app_command"@, a) matches Ok(ToolCallView::Command { command, value })
            && command == a.command->Some_0 && (a.value matches Some(v) ==> value == v)
            && (a.value is None ==> value.len() == 0),
        b.command == a.command && b.value == a.value ==> tool_plan("app_command"@, b) == tool_plan(
            "app_command"@,
            a,
        ),
{
    reveal_strlit("app_command");
    reveal_strlit("app_state");
    reveal_strlit("ui_inspect");
    assert("app_command"@.len() != "app_state"@.len());
    assert("app_command"@.len() != "ui_inspect"@.len());
}

/// Whether trimmed line `t` gives the role or the actions of an element
/// declared by an `agent-id:` property.
pub open spec fn property_metadata_line(t: Seq<char>) -> bool {
    quoted_value_spec(t, "agent-role:"@) is Some || quoted_value_spec(t, "agent-actions:"@) is Some
}

/// The lines after a property declaration at `i`, up to `j`, are blank or
/// give its role or actions, and line `j` is something else: another
/// declaration, code, or a comment.
pub open spec fn property_block_ends_at(lines: Seq<Seq<char>>, i: int, j: int) -> bool {
    &&& 0 <= i < j < lines.len()
    &&& declaration_kind(trim(lines[i])) == Some(AgentDeclarationKind::Property)
    &&& forall|k: int|
        i < k < j ==> trim(#[trigger] lines[k]).len() == 0 || property_metadata_line(trim(lines[k]))
    &&& trim(lines[j]).len() > 0
    &&& !property_metadata_line(trim(lines[j]))
}

proof fn lemma_property_metadata_local(
    lines: Seq<Seq<char>>,
    i: int,
    j: int,
    k: int,
    role: Option<Seq<char>>,
    actions: Option<Seq<Seq<char>>>,
)
    requires
        property_block_ends_at(lines, i, j),
        i < k <= j,
    ensures
        metadata_from(lines, k, false, role, actions) == metadata_from(
            lines.subrange(0, j),
            k,
            false,
            role,
            actions,
        ),
    decreases j - k,
{
    reveal_strlit("agent-role:");
    reveal_strlit("agent-actions:");
    let sub = lines.subrange(0, j);
    if k < j {
        assert(sub[k] == lines[k]);
        let cand = trim(lines[k]);
        match quoted_value_spec(cand, "agent-role:"@) {
            Some(v) => lemma_property_metadata_local(lines, i, j, k + 1, Some(v), actions),
            None => match quoted_value_spec(cand, "agent-actions:"@) {
                Some(v) => lemma_property_metadata_local(
                    lines,
                    i,
                    j,
                    k + 1,
                    role,
                    Some(crate::contract::split_actions(v)),
                ),
                None => lemma_property_metadata_local(lines, i, j, k + 1, role, actions),
            },
        }
    }
}

/// An element declared by an `agent-id:` property takes its role and
/// actions only from the lines right after it, up to the first line that is
/// neither blank nor one of its role and actions lines; a comment line ends
/// it like any other. So what follows that line never changes the
/// declaration: reading the source only up to it gives the same result.
pub proof fn lemma_property_declaration_ends_at_other_lines(lines: Seq<Seq<char>>, i: int, j: int)
    requires
        property_block_ends_at(lines, i, j),
    ensures
        declaration(lines, i) == declaration(lines.subrange(0, j), i),
{
    let sub = lines.subrange(0, j);
    assert(sub[i] == lines[i]);
    lemma_property_metadata_local(lines, i, j, i + 1, None, None);
}

} // verus!
