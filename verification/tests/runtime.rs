use slint_agent_desktop::runtime::{is_single_instance_error, window_sync, DesktopApp, LockFailure};
use slint_agent_desktop::state::{AppAction, AppReducer, AppState};

#[test]
fn window_updates_only_what_differs() {
    let mut state = AppState::new();
    let sync = window_sync("", "", false, &state);
    assert_eq!(sync.status, "bereit");
    assert_eq!(sync.input, None);
    assert_eq!(sync.selected_file, None);
    assert_eq!(sync.show_about, None);

    AppReducer::apply(&mut state, &AppAction::SetInput { value: "a".into() }).unwrap();
    AppReducer::apply(&mut state, &AppAction::OpenAbout).unwrap();
    let sync = window_sync("", "", false, &state);
    assert_eq!(sync.input.as_deref(), Some("a"));
    assert_eq!(sync.show_about, Some(true));
    assert_eq!(window_sync("a", "", true, &state).show_about, None);
    assert_eq!(window_sync("b", "", true, &state).input.as_deref(), Some("a"));
}

#[test]
fn the_desktop_app_starts_ready() {
    let app = DesktopApp::new();
    let state = app.agent_api.get_state().unwrap();
    assert_eq!(state.screen, "main");
    assert_eq!(state.status, "bereit");
    assert!(!state.busy);
}

#[test]
fn only_a_held_lock_means_another_instance() {
    assert!(is_single_instance_error(LockFailure::WouldBlock));
    assert!(!is_single_instance_error(LockFailure::Other));
}
