//! The semantic UI tree that agents inspect and act on, computed from a
//! snapshot of the application, and the rules that decide what a UI action
//! or an application command does: which operation it becomes, or why it
//! is refused.
use crate::domain::AppStatus;
use crate::localization::{status_key, text_spec, Catalog, Locale};
use crate::state::{
    can_submit_spec, opt_view, theme_parse_outcome, ActiveDialog, AppAction, AppActionView,
    AppState, AppStateView, ApplicationError, ApplicationErrorView, ThemeMode,
};
use crate::contract::string_views;
use crate::text::{concat, concat3, decimal, decimal_string, is_blank, str_eq, starts_with};
use vstd::prelude::*;

verus! {

broadcast use vstd::seq_lib::group_seq_properties;

/// The role and the actions of a semantic component.
#[derive(Debug, Clone, PartialEq, Eq)]
pub struct UiComponentMetadata {
    pub role: &'static str,
    pub actions: Vec<&'static str>,
}

/// The role and actions of a component, as mathematical values: every
/// element that the semantic UI tree can hold has them, the entries of the
/// notes list included.
pub open spec fn metadata_spec(id: Seq<char>) -> Option<(Seq<char>, Seq<Seq<char>>)> {
    if id == "main.input"@ {
        Some(("textbox"@, seq!["get_value"@, "set_value"@, "focus"@]))
    } else if id == "main.submit"@ {
        Some(("button"@, seq!["click"@, "focus"@]))
    } else if id == "main.reset"@ {
        Some(("button"@, seq!["click"@, "focus"@]))
    } else if id == "main.file-picker"@ {
        Some(("button"@, seq!["click"@, "get_value"@, "set_value"@, "focus"@]))
    } else if id == "main.selected-file"@ {
        Some(("status"@, seq!["get_value"@]))
    } else if id == "main.status"@ {
        Some(("status"@, seq![]))
    } else if id == "help.about"@ {
        Some(("menuitem"@, seq!["click"@]))
    } else if id == "about.dialog"@ {
        Some(("dialog"@, seq![]))
    } else if id == "about.close"@ {
        Some(("button"@, seq!["click"@, "focus"@]))
    } else if id == "file.settings"@ {
        Some(("menuitem"@, seq!["click"@]))
    } else if id == "notes.new"@ {
        Some(("button"@, seq!["click"@]))
    } else if id == "notes.title"@ {
        Some(("textbox"@, seq!["get_value"@, "set_value"@]))
    } else if id == "notes.body"@ {
        Some(("textbox"@, seq!["get_value"@, "set_value"@]))
    } else if id == "notes.save"@ {
        Some(("button"@, seq!["click"@]))
    } else if id == "notes.archive"@ {
        Some(("button"@, seq!["click"@]))
    } else if id == "settings.dialog"@ {
        Some(("dialog"@, seq![]))
    } else if id == "settings.theme.system"@ {
        Some(("radio"@, seq!["click"@]))
    } else if id == "settings.theme.light"@ {
        Some(("radio"@, seq!["click"@]))
    } else if id == "settings.theme.dark"@ {
        Some(("radio"@, seq!["click"@]))
    } else if id == "settings.data.summary"@ {
        Some(("status"@, seq!["get_value"@]))
    } else if id == "settings.data.backup"@ {
        Some(("button"@, seq!["click"@]))
    } else if id == "settings.close"@ {
        Some(("button"@, seq!["click"@, "focus"@]))
    } else if crate::contract::starts_with_spec(id, "notes.item."@) {
        Some(("listitem"@, seq!["click"@]))
    } else {
        None
    }
}

/// The role and actions of the component with identifier `id`.
pub fn ui_component_metadata(id: &str) -> (r: Option<UiComponentMetadata>)
    ensures
        match r {
            Some(m) => metadata_spec(id@) == Some((m.role@, m.actions@.map_values(|a: &str| a@))),
            None => metadata_spec(id@) is None,
        },
{
    let (role, actions): (&'static str, Vec<&'static str>) = if str_eq(id, "main.input") {
        ("textbox", vec!["get_value", "set_value", "focus"])
    } else if str_eq(id, "main.submit") {
        ("button", vec!["click", "focus"])
    } else if str_eq(id, "main.reset") {
        ("button", vec!["click", "focus"])
    } else if str_eq(id, "main.file-picker") {
        ("button", vec!["click", "get_value", "set_value", "focus"])
    } else if str_eq(id, "main.selected-file") {
        ("status", vec!["get_value"])
    } else if str_eq(id, "main.status") {
        ("status", vec![])
    } else if str_eq(id, "help.about") {
        ("menuitem", vec!["click"])
    } else if str_eq(id, "about.dialog") {
        ("dialog", vec![])
    } else if str_eq(id, "about.close") {
        ("button", vec!["click", "focus"])
    } else if str_eq(id, "file.settings") {
        ("menuitem", vec!["click"])
    } else if str_eq(id, "notes.new") {
        ("button", vec!["click"])
    } else if str_eq(id, "notes.title") {
        ("textbox", vec!["get_value", "set_value"])
    } else if str_eq(id, "notes.body") {
        ("textbox", vec!["get_value", "set_value"])
    } else if str_eq(id, "notes.save") {
        ("button", vec!["click"])
    } else if str_eq(id, "notes.archive") {
        ("button", vec!["click"])
    } else if str_eq(id, "settings.dialog") {
        ("dialog", vec![])
    } else if str_eq(id, "settings.theme.system") {
        ("radio", vec!["click"])
    } else if str_eq(id, "settings.theme.light") {
        ("radio", vec!["click"])
    } else if str_eq(id, "settings.theme.dark") {
        ("radio", vec!["click"])
    } else if str_eq(id, "settings.data.summary") {
        ("status", vec!["get_value"])
    } else if str_eq(id, "settings.data.backup") {
        ("button", vec!["click"])
    } else if str_eq(id, "settings.close") {
        ("button", vec!["click", "focus"])
    } else if starts_with(id, "notes.item.") {
        ("listitem", vec!["click"])
    } else {
        return None;
    };
    let r = UiComponentMetadata { role, actions };
    assert(r.actions@.map_values(|a: &str| a@) =~= metadata_spec(id@).unwrap().1);
    Some(r)
}

/// One element of the semantic UI tree.
#[derive(Debug, Clone, PartialEq, Eq)]
pub struct AgentElement {
    pub id: String,
    pub role: String,
    pub actions: Vec<String>,
    pub enabled: bool,
    pub value: Option<String>,
    pub accessible_label: Option<String>,
}

/// An element as mathematical values.
#[verifier::ext_equal]
pub struct ElementView {
    pub id: Seq<char>,
    pub role: Seq<char>,
    pub actions: Seq<Seq<char>>,
    pub enabled: bool,
    pub value: Option<Seq<char>>,
    pub label: Option<Seq<char>>,
}

impl View for AgentElement {
    type V = ElementView;

    open spec fn view(&self) -> ElementView {
        ElementView {
            id: self.id@,
            role: self.role@,
            actions: self.actions@.map_values(|a: String| a@),
            enabled: self.enabled,
            value: opt_view(self.value),
            label: opt_view(self.accessible_label),
        }
    }
}

/// The elements of a list, as mathematical values.
pub open spec fn element_views(v: Seq<AgentElement>) -> Seq<ElementView> {
    v.map_values(|e: AgentElement| e@)
}

/// A note as the notes list shows it.
#[derive(Debug, Clone, PartialEq, Eq)]
pub struct AgentNoteSummary {
    pub id: String,
    pub title: String,
}

/// What the semantic UI is computed from: the application state, the
/// active notes, the note draft, whether a note is selected, and the
/// summary of stored data.
#[derive(Debug)]
pub struct UiSnapshot {
    pub state: AppState,
    pub notes: Vec<AgentNoteSummary>,
    pub note_title: String,
    pub note_body: String,
    pub has_selection: bool,
    pub data_summary: String,
}

/// A snapshot as mathematical values.
pub struct SnapshotView {
    pub state: AppStateView,
    pub note_titles: Seq<Seq<char>>,
    pub note_title: Seq<char>,
    pub note_body: Seq<char>,
    pub has_selection: bool,
    pub data_summary: Seq<char>,
}

impl View for UiSnapshot {
    type V = SnapshotView;

    open spec fn view(&self) -> SnapshotView {
        SnapshotView {
            state: self.state@,
            note_titles: self.notes@.map_values(|n: AgentNoteSummary| n.title@),
            note_title: self.note_title@,
            note_body: self.note_body@,
            has_selection: self.has_selection,
            data_summary: self.data_summary@,
        }
    }
}

/// The text of the status element: the status label, or the error prefix
/// and the user-facing text of the error after a failure.
pub open spec fn status_text(s: AppStateView) -> Seq<char> {
    match (s.status, s.error_kind) {
        (AppStatus::Error, Some(k)) => text_spec(Locale::German, "status.error_prefix"@)
            + k.user_message_spec(),
        _ => text_spec(Locale::German, status_key(s.status)),
    }
}

/// The text of the status element.
pub fn status_text_of(state: &AppState) -> (r: String)
    ensures
        r@ == status_text(state@),
{
    let catalog = Catalog::new(Locale::German);
    match (state.status, state.error_kind) {
        (AppStatus::Error, Some(k)) => concat(catalog.text("status.error_prefix"), k.user_message()),
        _ => catalog.status(&state.status).to_owned(),
    }
}

/// An element with the given parts.
pub open spec fn el(
    id: Seq<char>,
    role: Seq<char>,
    actions: Seq<Seq<char>>,
    enabled: bool,
    value: Option<Seq<char>>,
    label: Seq<char>,
) -> ElementView {
    ElementView { id, role, actions, enabled, value, label: Some(label) }
}

/// Number of elements that are always shown, before the notes.
pub const FIXED_ELEMENTS: usize = 13;

/// Whether no modal dialog blocks the main window.
pub open spec fn unblocked(s: AppStateView) -> bool {
    s.active_dialog is None
}

/// The elements that are always shown.
pub open spec fn fixed_elements(v: SnapshotView) -> Seq<ElementView> {
    let s = v.state;
    let free = unblocked(s);
    seq![
        el("main.input"@, "textbox"@, seq!["get_value"@, "set_value"@, "focus"@], free, Some(s.input), "Haupteingabe"@),
        el("main.submit"@, "button"@, seq!["click"@, "focus"@], free && can_submit_spec(s), None, "Senden"@),
        el("main.reset"@, "button"@, seq!["click"@, "focus"@], free, None, "Zurücksetzen"@),
        el("main.file-picker"@, "button"@, seq!["click"@, "get_value"@, "set_value"@, "focus"@], free, Some(s.selected_file), "Datei auswählen"@),
        el("main.selected-file"@, "status"@, seq!["get_value"@], true, Some(s.selected_file), "Ausgewählter Dateipfad"@),
        el("main.status"@, "status"@, seq![], true, Some(status_text(s)), "Anwendungsstatus"@),
        el("help.about"@, "menuitem"@, seq!["click"@], free, None, "Über"@),
        el("file.settings"@, "menuitem"@, seq!["click"@], free, None, "Einstellungen"@),
        el("notes.new"@, "button"@, seq!["click"@], free, None, "Neue Notiz"@),
        el("notes.title"@, "textbox"@, seq!["get_value"@, "set_value"@], free, Some(v.note_title), "Notiztitel"@),
        el("notes.body"@, "textbox"@, seq!["get_value"@, "set_value"@], free, Some(v.note_body), "Notizinhalt"@),
        el("notes.save"@, "button"@, seq!["click"@], free && !is_blank(v.note_title), None, "Notiz speichern"@),
        el("notes.archive"@, "button"@, seq!["click"@], free && v.has_selection, None, "Notiz archivieren"@),
    ]
}

/// The text of the data summary in the settings dialog: the number of
/// active notes, then " aktive Notizen".
pub open spec fn data_summary_text(n: nat) -> Seq<char> {
    decimal(n) + " aktive Notizen"@
}

/// The identifier of the `k`-th entry of the notes list.
pub open spec fn note_item_id(k: nat) -> Seq<char> {
    "notes.item."@ + decimal(k)
}

/// The element of the `k`-th entry of the notes list.
pub open spec fn note_item(v: SnapshotView, k: int) -> ElementView {
    el(note_item_id(k as nat), "listitem"@, seq!["click"@], unblocked(v.state), Some(v.note_titles[k]), v.note_titles[k])
}

/// The entries of the notes list.
pub open spec fn item_elements(v: SnapshotView) -> Seq<ElementView> {
    Seq::new(v.note_titles.len(), |k: int| note_item(v, k))
}

/// Whether `mode` is the chosen theme, as an element value.
pub open spec fn flag_text(b: bool) -> Seq<char> {
    if b {
        "true"@
    } else {
        "false"@
    }
}

/// The elements of the open dialog.
pub open spec fn dialog_elements(v: SnapshotView) -> Seq<ElementView> {
    let s = v.state;
    match s.active_dialog {
        Some(ActiveDialog::About) => seq![
            el("about.dialog"@, "dialog"@, seq![], true, None, "Über Slint Agent Desktop"@),
            el("about.close"@, "button"@, seq!["click"@, "focus"@], true, None, "Schließen"@),
        ],
        Some(ActiveDialog::Settings) => seq![
            el("settings.dialog"@, "dialog"@, seq![], true, None, "Einstellungen"@),
            el("settings.theme.system"@, "radio"@, seq!["click"@], true, Some(flag_text(s.theme_mode == ThemeMode::System)), "Systemeinstellung"@),
            el("settings.theme.light"@, "radio"@, seq!["click"@], true, Some(flag_text(s.theme_mode == ThemeMode::Light)), "Hell"@),
            el("settings.theme.dark"@, "radio"@, seq!["click"@], true, Some(flag_text(s.theme_mode == ThemeMode::Dark)), "Dunkel"@),
            el("settings.data.summary"@, "status"@, seq!["get_value"@], true, Some(v.data_summary), "Gespeicherte Daten"@),
            el("settings.data.backup"@, "button"@, seq!["click"@], true, None, "Daten sichern"@),
            el("settings.close"@, "button"@, seq!["click"@, "focus"@], true, None, "Schließen"@),
        ],
        None => seq![],
    }
}

/// The semantic UI tree: the fixed elements, the notes list, and the
/// elements of the open dialog.
pub open spec fn ui_elements_spec(v: SnapshotView) -> Seq<ElementView> {
    fixed_elements(v) + item_elements(v) + dialog_elements(v)
}

/// The name of the screen in front.
pub open spec fn screen_name(s: AppStateView) -> Seq<char> {
    match s.active_dialog {
        Some(ActiveDialog::About) => "about"@,
        Some(ActiveDialog::Settings) => "settings"@,
        None => "main"@,
    }
}

/// The name of the screen in front.
pub fn screen_name_of(state: &AppState) -> (r: &'static str)
    ensures
        r@ == screen_name(state@),
{
    match state.active_dialog {
        Some(ActiveDialog::About) => "about",
        Some(ActiveDialog::Settings) => "settings",
        None => "main",
    }
}

fn names(a: &str, b: &str, c: &str, d: &str, n: usize) -> (r: Vec<String>)
    requires
        n <= 4,
    ensures
        string_views(r@) == seq![a@, b@, c@, d@].subrange(0, n as int),
{
    let mut out: Vec<String> = Vec::new();
    if n >= 1 {
        out.push(a.to_owned());
    }
    if n >= 2 {
        out.push(b.to_owned());
    }
    if n >= 3 {
        out.push(c.to_owned());
    }
    if n >= 4 {
        out.push(d.to_owned());
    }
    assert(string_views(out@) =~= seq![a@, b@, c@, d@].subrange(0, n as int));
    out
}

fn element(id: &str, role: &str, actions: Vec<String>, enabled: bool, value: Option<String>, label: &str) -> (r: AgentElement)
    ensures
        r@ == el(id@, role@, string_views(actions@), enabled, opt_view(value), label@),
{
    let r = AgentElement {
        id: id.to_owned(),
        role: role.to_owned(),
        actions,
        enabled,
        value,
        accessible_label: Some(label.to_owned()),
    };
    assert(r@.actions =~= string_views(r.actions@));
    r
}

fn push_element(list: &mut Vec<AgentElement>, e: AgentElement)
    ensures
        element_views(final(list)@) == element_views(old(list)@).push(e@),
{
    let ghost before = element_views(list@);
    let ghost ev = e@;
    list.push(e);
    assert(element_views(list@) =~= before.push(ev));
}

fn append_elements(list: &mut Vec<AgentElement>, more: Vec<AgentElement>)
    ensures
        element_views(final(list)@) == element_views(old(list)@) + element_views(more@),
{
    let ghost before = element_views(list@);
    let ghost extra = element_views(more@);
    let mut more = more;
    list.append(&mut more);
    assert(element_views(list@) =~= before + extra);
}

fn main_elements(snapshot: &UiSnapshot) -> (r: Vec<AgentElement>)
    ensures
        element_views(r@) == fixed_elements(snapshot@).subrange(0, 8),
{
    let s = &snapshot.state;
    let free = s.active_dialog.is_none();
    let mut list: Vec<AgentElement> = Vec::new();
    push_element(&mut list, element("main.input", "textbox", names("get_value", "set_value", "focus", "", 3), free, Some(s.input.clone()), "Haupteingabe"));
    push_element(&mut list, element("main.submit", "button", names("click", "focus", "", "", 2), free && s.can_submit(), None, "Senden"));
    push_element(&mut list, element("main.reset", "button", names("click", "focus", "", "", 2), free, None, "Zurücksetzen"));
    push_element(&mut list, element("main.file-picker", "button", names("click", "get_value", "set_value", "focus", 4), free, Some(s.selected_file.clone()), "Datei auswählen"));
    push_element(&mut list, element("main.selected-file", "status", names("get_value", "", "", "", 1), true, Some(s.selected_file.clone()), "Ausgewählter Dateipfad"));
    push_element(&mut list, element("main.status", "status", names("", "", "", "", 0), true, Some(status_text_of(s)), "Anwendungsstatus"));
    push_element(&mut list, element("help.about", "menuitem", names("click", "", "", "", 1), free, None, "Über"));
    push_element(&mut list, element("file.settings", "menuitem", names("click", "", "", "", 1), free, None, "Einstellungen"));
    assert(element_views(list@) =~~= fixed_elements(snapshot@).subrange(0, 8));
    list
}

fn note_form_elements(snapshot: &UiSnapshot) -> (r: Vec<AgentElement>)
    ensures
        element_views(r@) == fixed_elements(snapshot@).subrange(8, 13),
{
    let free = snapshot.state.active_dialog.is_none();
    let mut list: Vec<AgentElement> = Vec::new();
    push_element(&mut list, element("notes.new", "button", names("click", "", "", "", 1), free, None, "Neue Notiz"));
    push_element(&mut list, element("notes.title", "textbox", names("get_value", "set_value", "", "", 2), free, Some(snapshot.note_title.clone()), "Notiztitel"));
    push_element(&mut list, element("notes.body", "textbox", names("get_value", "set_value", "", "", 2), free, Some(snapshot.note_body.clone()), "Notizinhalt"));
    let title_blank = crate::text::trim_str(snapshot.note_title.as_str()).as_str().unicode_len() == 0;
    proof {
        crate::text::lemma_trim_empty_iff_blank(snapshot.note_title@);
    }
    push_element(&mut list, element("notes.save", "button", names("click", "", "", "", 1), free && !title_blank, None, "Notiz speichern"));
    push_element(&mut list, element("notes.archive", "button", names("click", "", "", "", 1), free && snapshot.has_selection, None, "Notiz archivieren"));
    assert(element_views(list@) =~~= fixed_elements(snapshot@).subrange(8, 13));
    list
}

fn note_items(snapshot: &UiSnapshot) -> (r: Vec<AgentElement>)
    ensures
        element_views(r@) == item_elements(snapshot@),
{
    let ghost v = snapshot@;
    let free = snapshot.state.active_dialog.is_none();
    let mut list: Vec<AgentElement> = Vec::new();
    let mut k: usize = 0;
    while k < snapshot.notes.len()
        invariant
            v == snapshot@,
            k <= snapshot.notes@.len(),
            free == unblocked(v.state),
            element_views(list@) == item_elements(v).subrange(0, k as int),
        decreases snapshot.notes@.len() - k,
    {
        let title = &snapshot.notes[k].title;
        assert(v.note_titles[k as int] == title@);
        let n = decimal_string(k as u64);
        let id = concat("notes.item.", n.as_str());
        let e = element(id.as_str(), "listitem", names("click", "", "", "", 1), free, Some(title.clone()), title.as_str());
        assert(e@ =~~= note_item(v, k as int));
        push_element(&mut list, e);
        assert(item_elements(v).subrange(0, k + 1) =~= item_elements(v).subrange(0, k as int).push(note_item(v, k as int)));
        k = k + 1;
    }
    assert(item_elements(v).subrange(0, k as int) =~= item_elements(v));
    list
}

fn open_dialog_elements(snapshot: &UiSnapshot) -> (r: Vec<AgentElement>)
    ensures
        element_views(r@) == dialog_elements(snapshot@),
{
    let s = &snapshot.state;
    let mut list: Vec<AgentElement> = Vec::new();
    match s.active_dialog {
        Some(ActiveDialog::About) => {
            push_element(&mut list, element("about.dialog", "dialog", names("", "", "", "", 0), true, None, "Über Slint Agent Desktop"));
            push_element(&mut list, element("about.close", "button", names("click", "focus", "", "", 2), true, None, "Schließen"));
        },
        Some(ActiveDialog::Settings) => {
            let mode = s.theme_mode;
            push_element(&mut list, element("settings.dialog", "dialog", names("", "", "", "", 0), true, None, "Einstellungen"));
            push_element(&mut list, element("settings.theme.system", "radio", names("click", "", "", "", 1), true, Some(flag_string(mode == ThemeMode::System)), "Systemeinstellung"));
            push_element(&mut list, element("settings.theme.light", "radio", names("click", "", "", "", 1), true, Some(flag_string(mode == ThemeMode::Light)), "Hell"));
            push_element(&mut list, element("settings.theme.dark", "radio", names("click", "", "", "", 1), true, Some(flag_string(mode == ThemeMode::Dark)), "Dunkel"));
            push_element(&mut list, element("settings.data.summary", "status", names("get_value", "", "", "", 1), true, Some(snapshot.data_summary.clone()), "Gespeicherte Daten"));
            push_element(&mut list, element("settings.data.backup", "button", names("click", "", "", "", 1), true, None, "Daten sichern"));
            push_element(&mut list, element("settings.close", "button", names("click", "focus", "", "", 2), true, None, "Schließen"));
        },
        None => {},
    }
    assert(element_views(list@) =~~= dialog_elements(snapshot@));
    list
}

/// The semantic UI tree of a snapshot.
pub fn ui_elements(snapshot: &UiSnapshot) -> (r: Vec<AgentElement>)
    ensures
        element_views(r@) == ui_elements_spec(snapshot@),
{
    let mut list = main_elements(snapshot);
    append_elements(&mut list, note_form_elements(snapshot));
    assert(fixed_elements(snapshot@).subrange(0, 8) + fixed_elements(snapshot@).subrange(8, 13) =~= fixed_elements(snapshot@));
    append_elements(&mut list, note_items(snapshot));
    append_elements(&mut list, open_dialog_elements(snapshot));
    list
}

fn flag_string(b: bool) -> (r: String)
    ensures
        r@ == flag_text(b),
{
    if b {
        "true".to_owned()
    } else {
        "false".to_owned()
    }
}

/// A semantic UI action: what to do (`click`, `set_value`, `get_value`,
/// `focus`), on which element, with which value.
#[derive(Debug, Clone, PartialEq, Eq)]
pub struct AgentActionRequest {
    pub action: String,
    pub id: String,
    pub value: Option<String>,
    /// Whether `value` names a directory, as whoever reads the file system
    /// reports it; it matters only where the value is a path.
    pub value_names_directory: bool,
}

/// The string arguments of an application command.
#[derive(Debug, Clone, PartialEq, Eq)]
pub struct CommandArguments {
    pub value: Option<String>,
    pub path: Option<String>,
    /// Whether the path argument (`path`, or else `value`) names a
    /// directory, as whoever reads the file system reports it.
    pub path_names_directory: bool,
}

impl CommandArguments {
    /// No arguments.
    pub fn none() -> (r: Self)
        ensures
            r.value is None,
            r.path is None,
            !r.path_names_directory,
    {
        CommandArguments { value: None, path: None, path_names_directory: false }
    }

    /// Just a `value` argument.
    pub fn value(value: &str) -> (r: Self)
        ensures
            opt_view(r.value) == Some(value@),
            r.path is None,
            !r.path_names_directory,
    {
        CommandArguments { value: Some(value.to_owned()), path: None, path_names_directory: false }
    }
}

/// An application command by name, with its arguments.
#[derive(Debug, Clone, PartialEq, Eq)]
pub struct AgentCommandRequest {
    pub command: String,
    pub arguments: CommandArguments,
}

/// What the agent interface does for an accepted request.
#[derive(Debug, Clone, PartialEq, Eq)]
pub enum AgentOperation {
    Dispatch(AppAction),
    Submit,
    /// Answer with a text and change nothing: a value that was read, or the
    /// confirmation of a focus.
    Read(String),
    NewNote,
    SetNoteTitle(String),
    SetNoteBody(String),
    SaveNote,
    ArchiveNote,
    SelectNote(usize),
    CreateBackup,
    ResetUserData,
}

/// An operation as mathematical values.
pub enum OperationView {
    Dispatch(AppActionView),
    Submit,
    Read(Seq<char>),
    NewNote,
    SetNoteTitle(Seq<char>),
    SetNoteBody(Seq<char>),
    SaveNote,
    ArchiveNote,
    SelectNote(nat),
    CreateBackup,
    ResetUserData,
}

impl View for AgentOperation {
    type V = OperationView;

    open spec fn view(&self) -> OperationView {
        match self {
            AgentOperation::Dispatch(a) => OperationView::Dispatch(a@),
            AgentOperation::Submit => OperationView::Submit,
            AgentOperation::Read(v) => OperationView::Read(v@),
            AgentOperation::NewNote => OperationView::NewNote,
            AgentOperation::SetNoteTitle(v) => OperationView::SetNoteTitle(v@),
            AgentOperation::SetNoteBody(v) => OperationView::SetNoteBody(v@),
            AgentOperation::SaveNote => OperationView::SaveNote,
            AgentOperation::ArchiveNote => OperationView::ArchiveNote,
            AgentOperation::SelectNote(k) => OperationView::SelectNote(*k as nat),
            AgentOperation::CreateBackup => OperationView::CreateBackup,
            AgentOperation::ResetUserData => OperationView::ResetUserData,
        }
    }
}

pub open spec fn hidden_error(id: Seq<char>) -> ApplicationErrorView {
    ApplicationErrorView::InvalidPayload("Element ist nicht sichtbar: "@ + id)
}

pub open spec fn disabled_error(id: Seq<char>) -> ApplicationErrorView {
    ApplicationErrorView::InvalidPayload("Element ist deaktiviert: "@ + id)
}

pub open spec fn unsupported_error(action: Seq<char>, id: Seq<char>) -> ApplicationErrorView {
    ApplicationErrorView::InvalidPayload(
        "nicht unterstützte Aktion oder unbekanntes Element: "@ + action + " "@ + id,
    )
}

pub open spec fn missing_value_error(id: Seq<char>) -> ApplicationErrorView {
    ApplicationErrorView::InvalidPayload("Wert für Element fehlt: "@ + id)
}

/// Whether `id` names an element that only some states show: a dialog's
/// elements and the entries of the notes list.
pub open spec fn may_appear(id: Seq<char>) -> bool {
    ||| id == "about.dialog"@
    ||| id == "about.close"@
    ||| id == "settings.dialog"@
    ||| id == "settings.theme.system"@
    ||| id == "settings.theme.light"@
    ||| id == "settings.theme.dark"@
    ||| id == "settings.data.summary"@
    ||| id == "settings.data.backup"@
    ||| id == "settings.close"@
    ||| crate::contract::starts_with_spec(id, "notes.item."@)
}

/// Whether `i` is the first position of an element with identifier `id`.
pub open spec fn is_first_element(els: Seq<ElementView>, id: Seq<char>, i: int) -> bool {
    0 <= i < els.len() && els[i].id == id && forall|j: int| 0 <= j < i ==> (#[trigger] els[j]).id != id
}

/// The position of the first element with identifier `id`, or -1.
pub open spec fn element_index(els: Seq<ElementView>, id: Seq<char>) -> int {
    if exists|i: int| 0 <= i < els.len() && (#[trigger] els[i]).id == id {
        choose|i: int| is_first_element(els, id, i)
    } else {
        -1
    }
}

/// A tree that holds identifier `id` has a first element with it.
pub proof fn lemma_first_element_exists(els: Seq<ElementView>, id: Seq<char>, j: int)
    requires
        0 <= j < els.len(),
        els[j].id == id,
    ensures
        exists|i: int| is_first_element(els, id, i),
    decreases j,
{
    if exists|k: int| 0 <= k < j && (#[trigger] els[k]).id == id {
        let k = choose|k: int| 0 <= k < j && (#[trigger] els[k]).id == id;
        lemma_first_element_exists(els, id, k);
    } else {
        assert(is_first_element(els, id, j));
    }
}

pub proof fn lemma_element_index(els: Seq<ElementView>, id: Seq<char>, i: int)
    requires
        is_first_element(els, id, i),
    ensures
        element_index(els, id) == i,
{
    let k = choose|k: int| is_first_element(els, id, k);
    assert(is_first_element(els, id, k));
    if k < i {
        assert(els[k].id != id);
    } else if k > i {
        assert(els[i].id != id);
    }
}

/// The elements that answer a `focus` action: the main input, the submit
/// button and the file picker. Focusing answers with a confirmation and
/// changes nothing.
pub open spec fn focusable(id: Seq<char>) -> bool {
    id == "main.input"@ || id == "main.submit"@ || id == "main.file-picker"@
}

/// What `set_value` does on an element that offers it.
pub open spec fn set_value_operation(id: Seq<char>, action: Seq<char>, value: Seq<char>, dir: bool) -> Result<OperationView, ApplicationErrorView> {
    if id == "main.input"@ {
        Ok(OperationView::Dispatch(AppActionView::SetInput { value }))
    } else if id == "main.file-picker"@ {
        Ok(OperationView::Dispatch(AppActionView::SelectFile { path: value, is_directory: dir }))
    } else if id == "notes.title"@ {
        Ok(OperationView::SetNoteTitle(value))
    } else if id == "notes.body"@ {
        Ok(OperationView::SetNoteBody(value))
    } else {
        Err(unsupported_error(action, id))
    }
}

/// What `click` does on the element at position `i`, which offers it.
pub open spec fn click_operation(v: SnapshotView, id: Seq<char>, action: Seq<char>, i: int) -> Result<OperationView, ApplicationErrorView> {
    if FIXED_ELEMENTS <= i < FIXED_ELEMENTS + v.note_titles.len() {
        Ok(OperationView::SelectNote((i - FIXED_ELEMENTS) as nat))
    } else if id == "main.submit"@ {
        Ok(OperationView::Submit)
    } else if id == "main.reset"@ {
        Ok(OperationView::Dispatch(AppActionView::Reset))
    } else if id == "main.file-picker"@ {
        Ok(OperationView::Dispatch(AppActionView::RequestFilePicker))
    } else if id == "help.about"@ {
        Ok(OperationView::Dispatch(AppActionView::OpenAbout))
    } else if id == "file.settings"@ {
        Ok(OperationView::Dispatch(AppActionView::OpenSettings))
    } else if id == "about.close"@ {
        Ok(OperationView::Dispatch(AppActionView::CloseAbout))
    } else if id == "settings.close"@ {
        Ok(OperationView::Dispatch(AppActionView::CloseSettings))
    } else if id == "settings.theme.system"@ {
        Ok(OperationView::Dispatch(AppActionView::SetThemeMode { mode: ThemeMode::System }))
    } else if id == "settings.theme.light"@ {
        Ok(OperationView::Dispatch(AppActionView::SetThemeMode { mode: ThemeMode::Light }))
    } else if id == "settings.theme.dark"@ {
        Ok(OperationView::Dispatch(AppActionView::SetThemeMode { mode: ThemeMode::Dark }))
    } else if id == "settings.data.backup"@ {
        Ok(OperationView::CreateBackup)
    } else if id == "notes.new"@ {
        Ok(OperationView::NewNote)
    } else if id == "notes.save"@ {
        Ok(OperationView::SaveNote)
    } else if id == "notes.archive"@ {
        Ok(OperationView::ArchiveNote)
    } else {
        Err(unsupported_error(action, id))
    }
}

/// What a UI action does in the UI a snapshot shows: it must name an
/// element that is shown and that offers the action; reading is always
/// allowed, anything else only on an enabled element; `set_value` needs a
/// value. A refused action is answered with the reason.
pub open spec fn plan_spec(v: SnapshotView, action: Seq<char>, id: Seq<char>, value: Option<Seq<char>>, dir: bool) -> Result<OperationView, ApplicationErrorView> {
    let els = ui_elements_spec(v);
    let i = element_index(els, id);
    if i < 0 {
        if may_appear(id) {
            Err(hidden_error(id))
        } else {
            Err(unsupported_error(action, id))
        }
    } else {
        let e = els[i];
        if !e.actions.contains(action) {
            Err(unsupported_error(action, id))
        } else if action == "get_value"@ {
            Ok(OperationView::Read(match e.value { Some(x) => x, None => Seq::empty() }))
        } else if action == "focus"@ {
            if focusable(id) {
                Ok(OperationView::Read(id + " fokussiert"@))
            } else {
                Err(unsupported_error(action, id))
            }
        } else if !e.enabled {
            Err(disabled_error(id))
        } else if action == "set_value"@ {
            match value {
                None => Err(missing_value_error(id)),
                Some(x) => set_value_operation(id, action, x, dir),
            }
        } else {
            click_operation(v, id, action, i)
        }
    }
}

fn unsupported(action: &str, id: &str) -> (r: ApplicationError)
    ensures
        r@ == unsupported_error(action@, id@),
{
    let mut s = concat3("nicht unterstützte Aktion oder unbekanntes Element: ", action, " ");
    s.append(id);
    ApplicationError::InvalidPayload(s)
}

fn find_element(els: &Vec<AgentElement>, id: &str) -> (r: Option<usize>)
    ensures
        match r {
            Some(i) => i == element_index(element_views(els@), id@) && i < els@.len(),
            None => element_index(element_views(els@), id@) == -1,
        },
{
    let ghost ev = element_views(els@);
    let mut i: usize = 0;
    while i < els.len()
        invariant
            ev == element_views(els@),
            i <= els@.len(),
            forall|j: int| 0 <= j < i ==> (#[trigger] ev[j]).id != id@,
        decreases els@.len() - i,
    {
        if str_eq(els[i].id.as_str(), id) {
            proof {
                lemma_element_index(ev, id@, i as int);
            }
            return Some(i);
        }
        i = i + 1;
    }
    None
}

fn offers(actions: &Vec<String>, action: &str) -> (r: bool)
    ensures
        r == string_views(actions@).contains(action@),
{
    let mut i: usize = 0;
    while i < actions.len()
        invariant
            i <= actions@.len(),
            forall|j: int| 0 <= j < i ==> string_views(actions@)[j] != action@,
        decreases actions@.len() - i,
    {
        if str_eq(actions[i].as_str(), action) {
            assert(string_views(actions@)[i as int] == action@);
            return true;
        }
        i = i + 1;
    }
    false
}

fn may_appear_exec(id: &str) -> (r: bool)
    ensures
        r == may_appear(id@),
{
    str_eq(id, "about.dialog") || str_eq(id, "about.close") || str_eq(id, "settings.dialog")
        || str_eq(id, "settings.theme.system") || str_eq(id, "settings.theme.light") || str_eq(
        id,
        "settings.theme.dark",
    ) || str_eq(id, "settings.data.summary") || str_eq(id, "settings.data.backup") || str_eq(
        id,
        "settings.close",
    ) || starts_with(id, "notes.item.")
}

fn set_value_op(id: &str, action: &str, value: String, dir: bool) -> (r: Result<AgentOperation, ApplicationError>)
    ensures
        match r {
            Ok(op) => set_value_operation(id@, action@, value@, dir) == Ok::<OperationView, ApplicationErrorView>(op@),
            Err(e) => set_value_operation(id@, action@, value@, dir) == Err::<OperationView, ApplicationErrorView>(e@),
        },
{
    if str_eq(id, "main.input") {
        Ok(AgentOperation::Dispatch(AppAction::SetInput { value }))
    } else if str_eq(id, "main.file-picker") {
        Ok(AgentOperation::Dispatch(AppAction::SelectFile { path: value, is_directory: dir }))
    } else if str_eq(id, "notes.title") {
        Ok(AgentOperation::SetNoteTitle(value))
    } else if str_eq(id, "notes.body") {
        Ok(AgentOperation::SetNoteBody(value))
    } else {
        Err(unsupported(action, id))
    }
}

fn click_op(snapshot: &UiSnapshot, id: &str, action: &str, i: usize) -> (r: Result<AgentOperation, ApplicationError>)
    ensures
        match r {
            Ok(op) => click_operation(snapshot@, id@, action@, i as int) == Ok::<OperationView, ApplicationErrorView>(op@),
            Err(e) => click_operation(snapshot@, id@, action@, i as int) == Err::<OperationView, ApplicationErrorView>(e@),
        },
{
    if FIXED_ELEMENTS <= i && i - FIXED_ELEMENTS < snapshot.notes.len() {
        Ok(AgentOperation::SelectNote(i - FIXED_ELEMENTS))
    } else if str_eq(id, "main.submit") {
        Ok(AgentOperation::Submit)
    } else if str_eq(id, "main.reset") {
        Ok(AgentOperation::Dispatch(AppAction::Reset))
    } else if str_eq(id, "main.file-picker") {
        Ok(AgentOperation::Dispatch(AppAction::RequestFilePicker))
    } else if str_eq(id, "help.about") {
        Ok(AgentOperation::Dispatch(AppAction::OpenAbout))
    } else if str_eq(id, "file.settings") {
        Ok(AgentOperation::Dispatch(AppAction::OpenSettings))
    } else if str_eq(id, "about.close") {
        Ok(AgentOperation::Dispatch(AppAction::CloseAbout))
    } else if str_eq(id, "settings.close") {
        Ok(AgentOperation::Dispatch(AppAction::CloseSettings))
    } else if str_eq(id, "settings.theme.system") {
        Ok(AgentOperation::Dispatch(AppAction::SetThemeMode { mode: ThemeMode::System }))
    } else if str_eq(id, "settings.theme.light") {
        Ok(AgentOperation::Dispatch(AppAction::SetThemeMode { mode: ThemeMode::Light }))
    } else if str_eq(id, "settings.theme.dark") {
        Ok(AgentOperation::Dispatch(AppAction::SetThemeMode { mode: ThemeMode::Dark }))
    } else if str_eq(id, "settings.data.backup") {
        Ok(AgentOperation::CreateBackup)
    } else if str_eq(id, "notes.new") {
        Ok(AgentOperation::NewNote)
    } else if str_eq(id, "notes.save") {
        Ok(AgentOperation::SaveNote)
    } else if str_eq(id, "notes.archive") {
        Ok(AgentOperation::ArchiveNote)
    } else {
        Err(unsupported(action, id))
    }
}

/// Decides what a UI action does in the UI that `snapshot` shows.
pub fn plan_ui_action(snapshot: &UiSnapshot, request: &AgentActionRequest) -> (r: Result<AgentOperation, ApplicationError>)
    ensures
        match r {
            Ok(op) => plan_spec(snapshot@, request.action@, request.id@, opt_view(request.value), request.value_names_directory) == Ok::<OperationView, ApplicationErrorView>(op@),
            Err(e) => plan_spec(snapshot@, request.action@, request.id@, opt_view(request.value), request.value_names_directory) == Err::<OperationView, ApplicationErrorView>(e@),
        },
{
    let action = request.action.as_str();
    let id = request.id.as_str();
    let els = ui_elements(snapshot);
    let ghost ev = element_views(els@);
    let i = match find_element(&els, id) {
        Some(i) => i,
        None => {
            if may_appear_exec(id) {
                return Err(ApplicationError::InvalidPayload(concat("Element ist nicht sichtbar: ", id)));
            }
            return Err(unsupported(action, id));
        },
    };
    let e = &els[i];
    assert(ev[i as int] == e@);
    if !offers(&e.actions, action) {
        return Err(unsupported(action, id));
    }
    if str_eq(action, "get_value") {
        let v = match &e.value {
            Some(x) => x.clone(),
            None => String::new(),
        };
        return Ok(AgentOperation::Read(v));
    }
    if str_eq(action, "focus") {
        if str_eq(id, "main.input") || str_eq(id, "main.submit") || str_eq(id, "main.file-picker") {
            return Ok(AgentOperation::Read(concat(id, " fokussiert")));
        }
        return Err(unsupported(action, id));
    }
    if !e.enabled {
        return Err(ApplicationError::InvalidPayload(concat("Element ist deaktiviert: ", id)));
    }
    if str_eq(action, "set_value") {
        return match &request.value {
            None => Err(ApplicationError::InvalidPayload(concat("Wert für Element fehlt: ", id))),
            Some(x) => set_value_op(id, action, x.clone(), request.value_names_directory),
        };
    }
    click_op(snapshot, id, action, i)
}

pub open spec fn missing_argument_error(name: Seq<char>) -> ApplicationErrorView {
    ApplicationErrorView::InvalidPayload("Zeichenfolgenargument fehlt: "@ + name)
}

pub open spec fn unsupported_command_error(command: Seq<char>) -> ApplicationErrorView {
    ApplicationErrorView::InvalidPayload("nicht unterstützter Befehl: "@ + command)
}

/// An operation that needs the `value` argument.
pub open spec fn with_value(value: Option<Seq<char>>, op: spec_fn(Seq<char>) -> OperationView) -> Result<OperationView, ApplicationErrorView> {
    match value {
        Some(x) => Ok(op(x)),
        None => Err(missing_argument_error("value"@)),
    }
}

/// What an application command does: the named operation with its
/// arguments, or why it is refused (an unknown command, a missing string
/// argument, an unknown theme).
pub open spec fn command_plan(command: Seq<char>, value: Option<Seq<char>>, path: Option<Seq<char>>, dir: bool) -> Result<OperationView, ApplicationErrorView> {
    if command == "submit"@ {
        Ok(OperationView::Submit)
    } else if command == "reset"@ {
        Ok(OperationView::Dispatch(AppActionView::Reset))
    } else if command == "open_about"@ {
        Ok(OperationView::Dispatch(AppActionView::OpenAbout))
    } else if command == "close_about"@ {
        Ok(OperationView::Dispatch(AppActionView::CloseAbout))
    } else if command == "open_settings"@ {
        Ok(OperationView::Dispatch(AppActionView::OpenSettings))
    } else if command == "close_settings"@ {
        Ok(OperationView::Dispatch(AppActionView::CloseSettings))
    } else if command == "request_file_picker"@ {
        Ok(OperationView::Dispatch(AppActionView::RequestFilePicker))
    } else if command == "cancel_file_selection"@ {
        Ok(OperationView::Dispatch(AppActionView::CancelFileSelection))
    } else if command == "clear_focus"@ {
        Ok(OperationView::Dispatch(AppActionView::ClearFocus))
    } else if command == "set_input"@ {
        with_value(value, |x: Seq<char>| OperationView::Dispatch(AppActionView::SetInput { value: x }))
    } else if command == "focus"@ {
        with_value(value, |x: Seq<char>| OperationView::Dispatch(AppActionView::Focus { element_id: x }))
    } else if command == "select_file"@ {
        match (path, value) {
            (Some(p), _) => Ok(OperationView::Dispatch(AppActionView::SelectFile { path: p, is_directory: dir })),
            (None, Some(p)) => Ok(OperationView::Dispatch(AppActionView::SelectFile { path: p, is_directory: dir })),
            (None, None) => Err(missing_argument_error("path"@)),
        }
    } else if command == "set_theme"@ {
        match value {
            None => Err(missing_argument_error("value"@)),
            Some(x) => match theme_parse_outcome(x) {
                Ok(mode) => Ok(OperationView::Dispatch(AppActionView::SetThemeMode { mode })),
                Err(e) => Err(e),
            },
        }
    } else if command == "new_note"@ {
        Ok(OperationView::NewNote)
    } else if command == "set_note_title"@ {
        with_value(value, |x: Seq<char>| OperationView::SetNoteTitle(x))
    } else if command == "set_note_body"@ {
        with_value(value, |x: Seq<char>| OperationView::SetNoteBody(x))
    } else if command == "save_note"@ {
        Ok(OperationView::SaveNote)
    } else if command == "archive_note"@ {
        Ok(OperationView::ArchiveNote)
    } else if command == "create_backup"@ {
        Ok(OperationView::CreateBackup)
    } else if command == "reset_user_data"@ {
        Ok(OperationView::ResetUserData)
    } else {
        Err(unsupported_command_error(command))
    }
}

fn missing_argument(name: &str) -> (r: ApplicationError)
    ensures
        r@ == missing_argument_error(name@),
{
    ApplicationError::InvalidPayload(concat("Zeichenfolgenargument fehlt: ", name))
}

/// Decides what an application command does.
pub fn plan_command(request: &AgentCommandRequest) -> (r: Result<AgentOperation, ApplicationError>)
    ensures
        match r {
            Ok(op) => command_plan(request.command@, opt_view(request.arguments.value), opt_view(request.arguments.path), request.arguments.path_names_directory) == Ok::<OperationView, ApplicationErrorView>(op@),
            Err(e) => command_plan(request.command@, opt_view(request.arguments.value), opt_view(request.arguments.path), request.arguments.path_names_directory) == Err::<OperationView, ApplicationErrorView>(e@),
        },
{
    let c = request.command.as_str();
    let value = &request.arguments.value;
    if str_eq(c, "submit") {
        Ok(AgentOperation::Submit)
    } else if str_eq(c, "reset") {
        Ok(AgentOperation::Dispatch(AppAction::Reset))
    } else if str_eq(c, "open_about") {
        Ok(AgentOperation::Dispatch(AppAction::OpenAbout))
    } else if str_eq(c, "close_about") {
        Ok(AgentOperation::Dispatch(AppAction::CloseAbout))
    } else if str_eq(c, "open_settings") {
        Ok(AgentOperation::Dispatch(AppAction::OpenSettings))
    } else if str_eq(c, "close_settings") {
        Ok(AgentOperation::Dispatch(AppAction::CloseSettings))
    } else if str_eq(c, "request_file_picker") {
        Ok(AgentOperation::Dispatch(AppAction::RequestFilePicker))
    } else if str_eq(c, "cancel_file_selection") {
        Ok(AgentOperation::Dispatch(AppAction::CancelFileSelection))
    } else if str_eq(c, "clear_focus") {
        Ok(AgentOperation::Dispatch(AppAction::ClearFocus))
    } else if str_eq(c, "set_input") {
        match value {
            Some(x) => Ok(AgentOperation::Dispatch(AppAction::SetInput { value: x.clone() })),
            None => Err(missing_argument("value")),
        }
    } else if str_eq(c, "focus") {
        match value {
            Some(x) => Ok(AgentOperation::Dispatch(AppAction::Focus { element_id: x.clone() })),
            None => Err(missing_argument("value")),
        }
    } else if str_eq(c, "select_file") {
        match (&request.arguments.path, value) {
            (Some(p), _) => Ok(AgentOperation::Dispatch(AppAction::SelectFile { path: p.clone(), is_directory: request.arguments.path_names_directory })),
            (None, Some(p)) => Ok(AgentOperation::Dispatch(AppAction::SelectFile { path: p.clone(), is_directory: request.arguments.path_names_directory })),
            (None, None) => Err(missing_argument("path")),
        }
    } else if str_eq(c, "set_theme") {
        match value {
            None => Err(missing_argument("value")),
            Some(x) => match ThemeMode::parse(x.as_str()) {
                Ok(mode) => Ok(AgentOperation::Dispatch(AppAction::SetThemeMode { mode })),
                Err(e) => Err(e),
            },
        }
    } else if str_eq(c, "new_note") {
        Ok(AgentOperation::NewNote)
    } else if str_eq(c, "set_note_title") {
        match value {
            Some(x) => Ok(AgentOperation::SetNoteTitle(x.clone())),
            None => Err(missing_argument("value")),
        }
    } else if str_eq(c, "set_note_body") {
        match value {
            Some(x) => Ok(AgentOperation::SetNoteBody(x.clone())),
            None => Err(missing_argument("value")),
        }
    } else if str_eq(c, "save_note") {
        Ok(AgentOperation::SaveNote)
    } else if str_eq(c, "archive_note") {
        Ok(AgentOperation::ArchiveNote)
    } else if str_eq(c, "create_backup") {
        Ok(AgentOperation::CreateBackup)
    } else if str_eq(c, "reset_user_data") {
        Ok(AgentOperation::ResetUserData)
    } else {
        Err(ApplicationError::InvalidPayload(concat("nicht unterstützter Befehl: ", c)))
    }
}

} // verus!
