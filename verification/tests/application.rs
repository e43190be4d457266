use slint_agent_desktop::domain::{AppSettings, AppStatus, SubmissionRecord};
use slint_agent_desktop::service::{AppRepository, AppService, SubmissionCommand, SubmissionPayload};
use slint_agent_desktop::state::{AppAction, ApplicationError};
use slint_agent_desktop::store::AppStateStore;

#[derive(Clone, Default)]
struct FakeRepository {
    records: Vec<SubmissionRecord>,
    settings: Option<AppSettings>,
}

impl AppRepository for FakeRepository {
    fn load_settings(&self) -> Result<AppSettings, ApplicationError> {
        Ok(self.settings.clone().unwrap_or_default())
    }

    fn save_settings(&mut self, settings: AppSettings) -> Result<(), ApplicationError> {
        self.settings = Some(settings);
        Ok(())
    }

    fn save_submission(&mut self, submission: SubmissionRecord) -> Result<(), ApplicationError> {
        self.records.push(submission);
        Ok(())
    }

    fn list_submissions(&self) -> Result<Vec<SubmissionRecord>, ApplicationError> {
        Ok(self.records.clone())
    }
}

fn store() -> AppStateStore<FakeRepository> {
    AppStateStore::new(AppService::new(FakeRepository::default()))
}

#[test]
fn submitting_persists_a_record_in_the_repository() {
    let mut service = AppService::new(FakeRepository::default());
    service
        .submit(SubmissionPayload {
            value: "Test".into(),
        })
        .unwrap();

    let records = service.list_records().unwrap();
    assert_eq!(records.len(), 1);
    assert_eq!(records[0].description, "Test");
}

#[test]
fn state_store_is_shared_by_commands_and_subscribers() {
    let mut store = store();
    let updates = store.subscribe().unwrap();

    store
        .dispatch(AppAction::SetInput {
            value: "Test".into(),
        })
        .unwrap();

    let state = store.current_state().unwrap();
    assert_eq!(state.input, "Test");
    assert_eq!(updates.recv().unwrap(), state);
}

#[test]
fn submit_availability_uses_the_same_trimmed_input_rule_as_submission() {
    let mut store = store();

    store
        .dispatch(AppAction::SetInput {
            value: "   ".into(),
        })
        .unwrap();
    assert!(!store.current_state().unwrap().can_submit());

    store
        .dispatch(AppAction::SetInput {
            value: "Test".into(),
        })
        .unwrap();
    assert!(store.current_state().unwrap().can_submit());
}

#[test]
fn state_store_rejects_submit_without_input() {
    let mut store = store();
    let error = store.submit().unwrap_err();
    assert!(error.to_string().contains("Wert darf nicht leer sein"));
    let state = store.current_state().unwrap();
    assert!(!state.busy);
    assert_eq!(state.status, AppStatus::Error);
    assert_eq!(
        state.error_message.as_deref(),
        Some("Domänenfehler: Wert darf nicht leer sein")
    );
}

#[test]
fn state_store_publishes_submission_lifecycle() {
    let mut store = store();
    let updates = store.subscribe().unwrap();
    store
        .dispatch(AppAction::SetInput {
            value: "Test".into(),
        })
        .unwrap();
    updates.recv().unwrap();

    let result = store.submit().unwrap();
    assert_eq!(result.state.status, AppStatus::Success);
    assert!(!result.state.busy);
    assert_eq!(updates.recv().unwrap().status, AppStatus::Busy);
    assert_eq!(updates.recv().unwrap().status, AppStatus::Success);
}

#[test]
fn state_store_does_not_publish_unchanged_state() {
    let mut store = store();
    let updates = store.subscribe().unwrap();

    store.dispatch(AppAction::OpenAbout).unwrap();
    updates.recv().unwrap();
    let revision = store.current_state().unwrap().revision;

    store.dispatch(AppAction::OpenAbout).unwrap();

    assert!(updates.try_recv().is_err());
    assert_eq!(store.current_state().unwrap().revision, revision);
}

#[test]
fn focusing_a_control_creates_a_transient_canonical_effect() {
    let mut store = store();

    let result = store
        .dispatch(AppAction::Focus {
            element_id: "main.input".into(),
        })
        .unwrap();

    assert_eq!(result.message, "main.input fokussiert");
    assert_eq!(result.state.focused_element.as_deref(), Some("main.input"));
    store.dispatch(AppAction::ClearFocus).unwrap();
    assert_eq!(store.current_state().unwrap().focused_element, None);
}

#[test]
fn state_store_rejects_directory_paths_for_file_selection() {
    let mut store = store();
    let error = store
        .dispatch(AppAction::SelectFile {
            path: "/workspace".into(),
            is_directory: true,
        })
        .unwrap_err();
    assert!(error.to_string().contains("muss auf eine Datei verweisen"));
    assert_eq!(store.current_state().unwrap().selected_file, "");
}

#[test]
fn file_picker_request_is_published_once_until_it_is_resolved() {
    let mut store = store();
    let updates = store.subscribe().unwrap();

    store.dispatch(AppAction::RequestFilePicker).unwrap();
    assert!(updates.recv().unwrap().file_picker_requested);

    let revision = store.current_state().unwrap().revision;
    store.dispatch(AppAction::RequestFilePicker).unwrap();
    assert!(updates.try_recv().is_err());
    assert_eq!(store.current_state().unwrap().revision, revision);

    store.dispatch(AppAction::CancelFileSelection).unwrap();
    assert!(!updates.recv().unwrap().file_picker_requested);
}

#[test]
fn rejected_actions_are_reported_through_canonical_state() {
    let mut store = store();

    let error = store
        .dispatch(AppAction::SelectFile {
            path: "/workspace".into(),
            is_directory: true,
        })
        .unwrap_err();

    let state = store.current_state().unwrap();
    assert_eq!(state.status, AppStatus::Error);
    assert_eq!(
        state.error_message.as_deref(),
        Some(error.to_string().as_str())
    );
}

#[test]
fn a_dropped_subscription_does_not_stop_the_others() {
    let mut store = store();
    let gone = store.subscribe().unwrap();
    let live = store.subscribe().unwrap();
    drop(gone);

    store.dispatch(AppAction::OpenAbout).unwrap();
    store.dispatch(AppAction::CloseAbout).unwrap();

    let first = live.recv().unwrap();
    let second = live.recv().unwrap();
    assert!(first.revision != second.revision);
    assert_eq!(second, store.current_state().unwrap());
    assert!(live.try_recv().is_err());
}

#[test]
fn the_submit_command_stores_a_record_named_after_the_application_and_time() {
    let mut service = AppService::new(FakeRepository::default());
    let message = service
        .execute_command(SubmissionCommand {
            command: "submit".into(),
            value: Some("Wert".into()),
        })
        .unwrap();
    assert_eq!(message, "Befehl ausgeführt");
    let records = service.list_records().unwrap();
    assert_eq!(records.len(), 1);
    assert_eq!(records[0].description, "Wert");
    assert_eq!(records[0].title, "submit");
    let id = records[0].id.as_str().to_string();
    let millis = id.strip_prefix("Slint Agent Demo-").expect("named after the application");
    let expected = records[0].created_at.unix_seconds * 1000
        + i64::from(records[0].created_at.nanos / 1_000_000);
    assert_eq!(millis, expected.to_string());
}

#[test]
fn the_submit_command_refuses_a_blank_value_and_stores_nothing() {
    let mut service = AppService::new(FakeRepository::default());
    let error = service
        .execute_command(SubmissionCommand {
            command: "submit".into(),
            value: Some("   ".into()),
        })
        .unwrap_err();
    assert!(matches!(error, ApplicationError::InvalidPayload(ref m) if m == "Wert darf nicht leer sein"));
    let missing = service
        .execute_command(SubmissionCommand {
            command: "submit".into(),
            value: None,
        })
        .unwrap_err();
    assert!(matches!(missing, ApplicationError::InvalidPayload(_)));
    assert!(service.list_records().unwrap().is_empty());
}
