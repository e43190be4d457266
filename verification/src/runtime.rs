//! Values of the desktop runtime: the remembered window geometry, a native
//! notification, the desktop application's agent service, and what the
//! window must change to show the current state.
use crate::agent::AgentApi;
use crate::agent_ui::{status_text, status_text_of};
use crate::state::{ActiveDialog, AppState};
use crate::text::str_eq;
use crate::repository::{initialize_repository, MemoryRepository};
use vstd::prelude::*;

verus! {

/// Size and position of the main window.
#[derive(Debug, Clone, Copy, PartialEq, Eq, Structural)]
pub struct WindowState {
    pub width: u32,
    pub height: u32,
    pub x: i32,
    pub y: i32,
}

/// A notification to show through the operating system.
#[derive(Debug, Clone, PartialEq, Eq)]
pub struct NativeNotification {
    pub title: String,
    pub body: String,
}

/// The desktop application: its agent service over the in-memory repository.
pub struct DesktopApp {
    pub agent_api: AgentApi<MemoryRepository>,
}

impl DesktopApp {
    /// An application in its initial state.
    pub fn new() -> (r: Self)
        ensures
            r.agent_api.view_spec().state == crate::state::initial_state(),
    {
        let repository = initialize_repository();
        DesktopApp { agent_api: AgentApi::new(repository.build_service()) }
    }
}

/// How an attempt to take the single-instance lock failed, as far as the
/// runtime tells the cases apart.
#[derive(Debug, Clone, Copy, PartialEq, Eq, Structural)]
pub enum LockFailure {
    /// The lock is held elsewhere (`WouldBlock`).
    WouldBlock,
    /// Any other failure.
    Other,
}

/// Whether a failure to take the lock means that another instance is
/// running.
pub fn is_single_instance_error(failure: LockFailure) -> (r: bool)
    ensures
        r == (failure == LockFailure::WouldBlock),
{
    match failure {
        LockFailure::WouldBlock => true,
        LockFailure::Other => false,
    }
}

/// What the window must change to show a state: the status text always,
/// and the input, the selected file and the visibility of the about dialog
/// only where they differ from what it shows.
#[derive(Debug, Clone, PartialEq, Eq)]
pub struct WindowSync {
    pub status: String,
    pub input: Option<String>,
    pub selected_file: Option<String>,
    pub show_about: Option<bool>,
}

/// The changes that bring a window showing `shown_input`, `shown_file` and
/// an about dialog that is visible or not up to date with `state`.
pub fn window_sync(shown_input: &str, shown_file: &str, about_visible: bool, state: &AppState) -> (r:
    WindowSync)
    ensures
        r.status@ == status_text(state@),
        match r.input {
            Some(v) => v@ == state@.input && shown_input@ != state@.input,
            None => shown_input@ == state@.input,
        },
        match r.selected_file {
            Some(v) => v@ == state@.selected_file && shown_file@ != state@.selected_file,
            None => shown_file@ == state@.selected_file,
        },
        match r.show_about {
            Some(b) => b == (state@.active_dialog == Some(ActiveDialog::About)) && b != about_visible,
            None => about_visible == (state@.active_dialog == Some(ActiveDialog::About)),
        },
{
    let input = if str_eq(shown_input, state.input.as_str()) {
        None
    } else {
        Some(state.input.clone())
    };
    let selected_file = if str_eq(shown_file, state.selected_file.as_str()) {
        None
    } else {
        Some(state.selected_file.clone())
    };
    let open = state.is_about_open();
    let show_about = if open == about_visible {
        None
    } else {
        Some(open)
    };
    WindowSync { status: status_text_of(state), input, selected_file, show_about }
}

} // verus!
