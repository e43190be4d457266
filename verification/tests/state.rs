use slint_agent_desktop::domain::{AppScreen, AppStatus, DomainError};
use slint_agent_desktop::state::{
    AppAction, AppEvent, AppReducer, AppState, ApplicationError, ErrorKind, ThemeMode,
};

#[test]
fn every_action_answers_with_its_message() {
    let mut state = AppState::new();
    let cases = [
        (AppAction::SetInput { value: "x".into() }, "Wert aktualisiert"),
        (AppAction::ClearFocus, "Fokus aufgehoben"),
        (
            AppAction::SelectFile {
                path: "  notes.txt ".into(),
                is_directory: false,
            },
            "Datei ausgewählt",
        ),
        (AppAction::RequestFilePicker, "Dateiauswahl geöffnet"),
        (AppAction::CancelFileSelection, "Dateiauswahl abgebrochen"),
        (AppAction::OpenAbout, "Info-Dialog geöffnet"),
        (AppAction::CloseAbout, "Info-Dialog geschlossen"),
        (AppAction::OpenSettings, "Einstellungen geöffnet"),
        (AppAction::CloseSettings, "Einstellungen geschlossen"),
        (
            AppAction::SetThemeMode {
                mode: ThemeMode::Light,
            },
            "App-Design auf Hell gesetzt",
        ),
        (AppAction::Reset, "zurückgesetzt"),
    ];
    for (action, message) in cases {
        assert_eq!(AppReducer::apply(&mut state, &action).unwrap(), message);
    }
    assert_eq!(state.selected_file, "notes.txt");
    assert_eq!(state.theme_mode, ThemeMode::Light);
    assert_eq!(state.input, "");
    assert_eq!(state.revision, 0);
}

#[test]
fn overlong_input_is_refused_and_leaves_the_state() {
    let mut state = AppState::new();
    let ok = "x".repeat(4096);
    assert!(AppReducer::apply(&mut state, &AppAction::SetInput { value: ok }).is_ok());
    let error = AppReducer::apply(
        &mut state,
        &AppAction::SetInput {
            value: "y".repeat(4097),
        },
    )
    .unwrap_err();
    assert_eq!(
        error.to_string(),
        "ungültige Nutzdaten: Eingabe überschreitet 4096 Zeichen"
    );
    assert_eq!(state.input.len(), 4096);
}

#[test]
fn file_paths_are_checked_in_order() {
    let message = |p: &str| AppReducer::validate_file_path(p, false).unwrap_err().to_string();
    assert_eq!(message("   "), "ungültige Nutzdaten: Dateipfad darf nicht leer sein");
    assert_eq!(
        message(&"a".repeat(4097)),
        "ungültige Nutzdaten: Dateipfad überschreitet 4096 Zeichen"
    );
    assert_eq!(
        message("a\0.txt"),
        "ungültige Nutzdaten: Dateipfad enthält ungültige Nullbytes"
    );
    assert_eq!(
        AppReducer::validate_file_path("/workspace", true)
            .unwrap_err()
            .to_string(),
        "ungültige Nutzdaten: Dateipfad muss auf eine Datei verweisen"
    );
    assert_eq!(AppReducer::validate_file_path("README", false).unwrap(), "README");
    assert_eq!(
        AppReducer::validate_file_path("/tmp/Makefile", false).unwrap(),
        "/tmp/Makefile"
    );
    assert_eq!(
        AppReducer::validate_file_path(" C:\\data\\a.txt ", false).unwrap(),
        "C:\\data\\a.txt"
    );
}

#[test]
fn closing_one_dialog_keeps_the_other_open() {
    let mut state = AppState::new();
    AppReducer::apply(&mut state, &AppAction::OpenSettings).unwrap();
    assert_eq!(state.screen(), AppScreen::Settings);
    AppReducer::apply(&mut state, &AppAction::CloseAbout).unwrap();
    assert!(state.is_settings_open());
    AppReducer::apply(&mut state, &AppAction::OpenAbout).unwrap();
    AppReducer::apply(&mut state, &AppAction::CloseSettings).unwrap();
    assert!(state.is_about_open());
    assert_eq!(state.screen(), AppScreen::About);
}

#[test]
fn submission_events_drive_status_and_busy() {
    let mut state = AppState::new();
    assert_eq!(
        AppReducer::apply_event(&mut state, &AppEvent::SubmissionStarted),
        "wird ausgeführt"
    );
    assert!(state.busy);
    assert!(!state.can_submit());
    assert_eq!(
        AppReducer::apply_event(
            &mut state,
            &AppEvent::SubmissionFailed {
                message: "kaputt".into(),
                kind: ErrorKind::Repository,
            }
        ),
        "kaputt"
    );
    assert!(!state.busy);
    assert_eq!(state.status, AppStatus::Error);
    assert_eq!(state.error_kind, Some(ErrorKind::Repository));
    AppReducer::apply_event(&mut state, &AppEvent::SubmissionSucceeded);
    assert_eq!(state.status, AppStatus::Success);
    assert_eq!(state.error_message, None);
}

#[test]
fn theme_names_parse_and_label() {
    assert_eq!(ThemeMode::parse("dark").unwrap(), ThemeMode::Dark);
    assert_eq!(ThemeMode::parse("light").unwrap().as_str(), "light");
    assert_eq!(ThemeMode::System.label(), "Systemeinstellung");
    assert_eq!(ThemeMode::default(), ThemeMode::System);
    assert_eq!(
        ThemeMode::parse("blau").unwrap_err().to_string(),
        "ungültige Nutzdaten: unbekannter Darstellungsmodus: blau"
    );
}

#[test]
fn error_classes_have_codes_and_user_messages() {
    let domain = ApplicationError::from(DomainError::EmptyValue);
    assert_eq!(domain.kind(), ErrorKind::Domain);
    assert_eq!(domain.to_string(), "Domänenfehler: Wert darf nicht leer sein");
    assert_eq!(ErrorKind::Domain.code(), "domain_error");
    assert_eq!(ErrorKind::InvalidPayload.code(), "invalid_payload");
    assert_eq!(ErrorKind::Repository.code(), "repository_error");
    assert_eq!(
        ErrorKind::Repository.user_message(),
        "Die Daten konnten nicht gespeichert werden."
    );
    let repository = ApplicationError::Repository("weg".into());
    assert_eq!(repository.to_string(), "Repository-Fehler: weg");
    let recovery = ApplicationError::DataRecoveryRequired("x".into());
    assert_eq!(recovery.kind(), ErrorKind::DataRecoveryRequired);
    assert_eq!(
        recovery.to_string(),
        "Datenwiederherstellung erforderlich: x"
    );
}

#[test]
fn copies_of_the_state_are_equal() {
    let mut state = AppState::default();
    AppReducer::apply(&mut state, &AppAction::SetInput { value: "a".into() }).unwrap();
    let copy = state.clone();
    assert!(copy.same_as(&state));
    assert_eq!(copy, state);
}

#[test]
fn length_limits_count_utf8_bytes() {
    let mut state = AppState::new();
    assert!(AppReducer::apply(
        &mut state,
        &AppAction::SetInput {
            value: "ä".repeat(2048)
        }
    )
    .is_ok());
    assert!(AppReducer::apply(
        &mut state,
        &AppAction::SetInput {
            value: "ä".repeat(2049)
        }
    )
    .is_err());
    let long_path = format!("{}.txt", "ä".repeat(2047));
    assert_eq!(
        AppReducer::validate_file_path(&long_path, false)
            .unwrap_err()
            .to_string(),
        "ungültige Nutzdaten: Dateipfad überschreitet 4096 Zeichen"
    );
}

#[test]
fn an_accepted_file_path_is_accepted_again_unchanged() {
    let once = AppReducer::validate_file_path("  /tmp/a.txt  ", false).unwrap();
    assert_eq!(once, "/tmp/a.txt");
    assert_eq!(AppReducer::validate_file_path(&once, false).unwrap(), once);
}
