use slint_agent_desktop::agent::AgentApi;
use slint_agent_desktop::agent_ui::{
    ui_component_metadata, AgentActionRequest, AgentCommandRequest, AgentElement,
    CommandArguments,
};
use slint_agent_desktop::repository::MemoryRepository;

fn api() -> AgentApi<MemoryRepository> {
    AgentApi::new(MemoryRepository::with_default_settings().build_service())
}

fn action(action: &str, id: &str, value: Option<&str>) -> AgentActionRequest {
    AgentActionRequest {
        action: action.into(),
        id: id.into(),
        value: value.map(|v| v.to_string()),
        value_names_directory: false,
    }
}

fn command(command: &str, arguments: CommandArguments) -> AgentCommandRequest {
    AgentCommandRequest {
        command: command.into(),
        arguments,
    }
}

fn element<'a>(elements: &'a [AgentElement], id: &str) -> Option<&'a AgentElement> {
    elements.iter().find(|element| element.id == id)
}

fn wait_for_submission(api: &AgentApi<MemoryRepository>) {
    for _ in 0..50 {
        if !api.get_state().expect("submission state").busy {
            return;
        }
    }
    panic!("Übermittlung wurde nicht abgeschlossen");
}

#[test]
fn semantic_input_controls_submit_and_command_updates_state() {
    let mut api = api();
    let initial = api.inspect_ui().unwrap();
    assert!(!element(&initial.elements, "main.submit").unwrap().enabled);

    api.execute_ui_action(action("set_value", "main.input", Some("Test")))
        .unwrap();
    assert!(
        element(&api.inspect_ui().unwrap().elements, "main.submit")
            .unwrap()
            .enabled
    );

    api.execute_ui_action(action("click", "main.submit", None))
        .unwrap();
    assert_eq!(api.get_state().unwrap().status, "erfolgreich");
}

#[test]
fn about_dialog_appears_in_semantic_tree_only_while_open() {
    let mut api = api();
    let initial = api.inspect_ui().unwrap();
    assert!(element(&initial.elements, "help.about").is_some());
    assert!(element(&initial.elements, "about.dialog").is_none());

    api.execute_ui_action(action("click", "help.about", None))
        .unwrap();
    let opened = api.inspect_ui().unwrap();
    assert!(element(&opened.elements, "about.dialog").is_some());
    assert!(element(&opened.elements, "about.close").unwrap().enabled);

    api.execute_ui_action(action("click", "about.close", None))
        .unwrap();
    let closed = api.inspect_ui().unwrap();
    assert!(element(&closed.elements, "about.dialog").is_none());
}

#[test]
fn unsupported_commands_return_a_stable_validation_error() {
    let mut api = api();
    let error = api
        .execute_command(command("unknown", CommandArguments::value("test")))
        .expect_err("unknown commands must be rejected");
    assert!(error.to_string().contains("nicht unterstützter Befehl"));
}

#[test]
fn component_metadata_defines_the_exposed_capabilities() {
    let input = ui_component_metadata("main.input").expect("input metadata");
    assert_eq!(input.role, "textbox");
    assert_eq!(input.actions, ["get_value", "set_value", "focus"]);

    let submit = ui_component_metadata("main.submit").expect("submit metadata");
    assert_eq!(submit.role, "button");
    assert_eq!(submit.actions, ["click", "focus"]);
}

#[test]
fn every_element_of_the_tree_has_its_metadata() {
    let mut api = api();
    api.execute_ui_action(action("set_value", "notes.title", Some("Notiz")))
        .unwrap();
    api.execute_ui_action(action("click", "notes.save", None)).unwrap();
    api.execute_ui_action(action("click", "file.settings", None))
        .unwrap();
    let elements = api.inspect_ui().unwrap().elements;
    assert!(element(&elements, "notes.item.0").is_some());
    assert!(element(&elements, "settings.theme.dark").is_some());
    for e in &elements {
        let metadata = ui_component_metadata(&e.id).expect("metadata for every element");
        assert_eq!(e.role, metadata.role);
        assert_eq!(e.actions, metadata.actions);
    }
    assert!(ui_component_metadata("unknown.element").is_none());
}

#[test]
fn focus_is_confirmed_only_for_the_main_controls_and_changes_nothing() {
    let mut api = api();
    let revision = api.revision().unwrap();
    assert_eq!(
        api.execute_ui_action(action("focus", "main.submit", None))
            .unwrap(),
        "main.submit fokussiert"
    );
    assert_eq!(
        api.execute_ui_action(action("focus", "main.input", None))
            .unwrap(),
        "main.input fokussiert"
    );
    assert!(api
        .execute_ui_action(action("focus", "main.reset", None))
        .unwrap_err()
        .to_string()
        .contains("nicht unterstützte Aktion"));
    assert_eq!(api.revision().unwrap(), revision);
}

#[test]
fn the_agent_refuses_to_select_a_directory() {
    let mut api = api();
    let request = AgentActionRequest {
        value_names_directory: true,
        ..action("set_value", "main.file-picker", Some("/tmp"))
    };
    let error = api.execute_ui_action(request).unwrap_err();
    assert!(error.to_string().contains("muss auf eine Datei verweisen"));
    api.execute_ui_action(action("set_value", "main.file-picker", Some("README")))
        .unwrap();
    assert_eq!(
        element(&api.inspect_ui().unwrap().elements, "main.selected-file")
            .unwrap()
            .value
            .as_deref(),
        Some("README")
    );
}

#[test]
fn semantic_contract_exposes_stable_controls_and_state_transitions() {
    let mut api = api();
    let initial = api.inspect_ui().expect("initial UI inspection");
    let submit = element(&initial.elements, "main.submit").expect("submit element");
    assert!(!submit.enabled);

    api.execute_ui_action(action("set_value", "main.input", Some("Integration test")))
        .expect("set input");

    let updated = api.inspect_ui().expect("updated UI inspection");
    assert!(
        element(&updated.elements, "main.submit")
            .expect("submit element after input")
            .enabled
    );

    api.execute_ui_action(action("set_value", "main.input", Some("   ")))
        .expect("set whitespace input");
    assert!(
        !element(
            &api.inspect_ui()
                .expect("inspection after whitespace input")
                .elements,
            "main.submit"
        )
        .expect("submit element after whitespace input")
        .enabled
    );

    api.execute_command(command("set_input", CommandArguments::value("Integration test")))
        .expect("set input command");
    api.execute_command(command("submit", CommandArguments::none()))
        .expect("submit command");
    wait_for_submission(&api);
    assert_eq!(api.get_state().expect("state").status, "erfolgreich");
}

#[test]
fn notes_feature_ui_creates_selects_updates_and_archives_notes() {
    let mut api = api();
    let initial = api.inspect_ui().expect("initial UI inspection");
    assert!(element(&initial.elements, "notes.new").is_some());
    assert!(!element(&initial.elements, "notes.save").expect("notes.save").enabled);

    api.execute_ui_action(action("set_value", "notes.title", Some("Erste Notiz")))
        .expect("set note title");
    api.execute_ui_action(action("set_value", "notes.body", Some("Inhalt")))
        .expect("set note body");
    assert!(
        element(
            &api.inspect_ui().expect("inspection with draft").elements,
            "notes.save"
        )
        .expect("notes.save with draft")
        .enabled
    );

    api.execute_ui_action(action("click", "notes.save", None))
        .expect("save note");
    let state = api.get_state().expect("state after save");
    assert_eq!(state.notes.len(), 1);
    assert_eq!(state.note_title, "Erste Notiz");
    assert!(state.selected_note_id.is_some());

    api.execute_ui_action(action("click", "notes.item.0", None))
        .expect("select note");
    api.execute_command(command(
        "set_note_title",
        CommandArguments::value("Aktualisierte Notiz"),
    ))
    .expect("set title command");
    api.execute_command(command("save_note", CommandArguments::none()))
        .expect("save note command");
    assert_eq!(
        api.get_state().expect("state after update").notes[0].title,
        "Aktualisierte Notiz"
    );

    api.execute_ui_action(action("click", "notes.archive", None))
        .expect("archive note");
    let archived = api.get_state().expect("state after archive");
    assert!(archived.notes.is_empty());
    assert!(archived.selected_note_id.is_none());
}

#[test]
fn disabled_submit_cannot_be_activated_through_the_agent_api() {
    let mut api = api();
    let revision = api.revision().expect("initial revision");

    let error = api
        .execute_ui_action(action("click", "main.submit", None))
        .expect_err("disabled submit must reject click actions");

    assert!(error.to_string().contains("Element ist deaktiviert"));
    assert_eq!(
        api.revision().expect("revision after rejected click"),
        revision
    );
    assert_eq!(
        api.get_state().expect("state after rejected click").status,
        "bereit"
    );
}

#[test]
fn missing_required_agent_values_are_rejected_without_mutating_state() {
    let mut api = api();
    let revision = api.revision().expect("initial revision");

    for request in [
        command("set_input", CommandArguments::none()),
        command("select_file", CommandArguments::none()),
        command("set_theme", CommandArguments::none()),
    ] {
        let error = api
            .execute_command(request)
            .expect_err("missing command argument must be rejected");
        assert!(error.to_string().contains("Zeichenfolgenargument fehlt"));
    }

    let error = api
        .execute_ui_action(action("set_value", "main.input", None))
        .expect_err("missing action value must be rejected");
    assert!(error.to_string().contains("Wert für Element fehlt"));
    assert_eq!(api.revision().expect("unchanged revision"), revision);
}

#[test]
fn about_menu_and_dialog_are_part_of_the_stable_semantic_contract() {
    let mut api = api();
    let help_about = element(
        &api.inspect_ui().expect("initial UI inspection").elements,
        "help.about",
    )
    .expect("help.about menu item")
    .clone();
    assert_eq!(help_about.role, "menuitem");
    assert!(help_about.enabled);

    api.execute_ui_action(action("click", "help.about", None))
        .expect("open about dialog");

    let opened = api.inspect_ui().expect("UI inspection after opening about");
    assert!(
        element(&opened.elements, "about.dialog").is_some(),
        "about dialog should be present once opened"
    );
    assert!(
        !element(&opened.elements, "main.input")
            .expect("main input element")
            .enabled,
        "modal dialog should disable background controls"
    );
    assert!(api
        .execute_ui_action(action("set_value", "main.input", Some("blocked")))
        .is_err());
    assert!(api
        .execute_ui_action(action("click", "main.reset", None))
        .is_err());

    api.execute_ui_action(action("click", "about.close", None))
        .expect("close about dialog");

    let closed = api.inspect_ui().expect("UI inspection after closing about");
    assert!(
        element(&closed.elements, "about.dialog").is_none(),
        "about dialog should be removed once closed"
    );
}

#[test]
fn hidden_dialog_controls_cannot_be_activated() {
    let mut api = api();

    let error = api
        .execute_ui_action(action("click", "about.close", None))
        .expect_err("hidden dialog close control must reject activation");

    assert!(error.to_string().contains("nicht sichtbar"));
}

#[test]
fn settings_menu_exposes_and_changes_the_theme_mode() {
    let mut api = api();
    let initial_state = api.get_state().expect("initial state");
    assert_eq!(initial_state.theme_mode, "system");

    api.execute_ui_action(action("click", "file.settings", None))
        .expect("open settings");

    let opened = api
        .inspect_ui()
        .expect("UI inspection after opening settings");
    assert_eq!(opened.screen, "settings");
    assert!(element(&opened.elements, "settings.dialog").is_some());
    assert_eq!(
        element(&opened.elements, "settings.theme.system")
            .expect("system theme option")
            .value
            .as_deref(),
        Some("true")
    );
    assert!(opened.elements.iter().any(|element| element.id == "settings.data.summary"
        && element
            .value
            .as_deref()
            .is_some_and(|value| value.contains("aktive Notizen"))));

    api.execute_ui_action(action("click", "settings.data.backup", None))
        .expect("create data backup");
    let backup_state = api.get_state().expect("backup state");
    assert_eq!(
        backup_state.last_backup_path.as_deref(),
        Some("memory://backup")
    );

    api.execute_command(command("reset_user_data", CommandArguments::none()))
        .expect("reset user data");
    assert!(api.get_state().expect("reset state").notes.is_empty());

    api.execute_ui_action(action("click", "settings.theme.dark", None))
        .expect("select dark theme");
    assert_eq!(
        api.get_state().expect("dark theme state").theme_mode,
        "dark"
    );

    let updated = api.inspect_ui().expect("inspection after theme change");
    assert_eq!(
        element(&updated.elements, "settings.theme.dark")
            .expect("dark theme option")
            .value
            .as_deref(),
        Some("true")
    );

    api.execute_ui_action(action("click", "settings.close", None))
        .expect("close settings");
    assert!(element(
        &api.inspect_ui()
            .expect("inspection after closing settings")
            .elements,
        "settings.dialog"
    )
    .is_none());
}

#[test]
fn hidden_settings_controls_cannot_be_activated() {
    let mut api = api();

    let error = api
        .execute_ui_action(action("click", "settings.theme.light", None))
        .expect_err("hidden theme control must reject activation");

    assert!(error.to_string().contains("nicht sichtbar"));
    assert_eq!(
        api.get_state().expect("unchanged state").theme_mode,
        "system"
    );
}

#[test]
fn agent_can_select_a_file_through_the_same_state_transition_as_the_native_picker() {
    let mut api = api();
    let initial = api.inspect_ui().expect("initial UI inspection");
    let picker = element(&initial.elements, "main.file-picker").expect("file picker element");
    assert_eq!(picker.role, "button");
    assert_eq!(picker.value.as_deref(), Some(""));

    api.execute_ui_action(action(
        "set_value",
        "main.file-picker",
        Some("/tmp/agent-selected.txt"),
    ))
    .expect("select file");

    let updated = api.inspect_ui().expect("updated UI inspection");
    let selected_file =
        element(&updated.elements, "main.selected-file").expect("selected file element");
    assert_eq!(
        selected_file.value.as_deref(),
        Some("/tmp/agent-selected.txt")
    );
}

#[test]
fn rejected_ui_actions_are_visible_in_agent_state_and_status() {
    let mut api = api();

    let error = api
        .execute_ui_action(action("set_value", "main.file-picker", Some("\0")))
        .unwrap_err();

    let state = api
        .get_state()
        .expect("state after rejected file selection");
    assert_eq!(state.status, "Fehler");
    assert_eq!(
        state.error.as_deref(),
        Some("Die Eingabe konnte nicht verarbeitet werden.")
    );
    assert_eq!(
        state.ui_error.as_ref().map(|error| error.code.to_string()),
        Some("invalid_payload".into())
    );
    assert_eq!(
        state
            .ui_error
            .as_ref()
            .map(|error| error.diagnostic_message.as_str()),
        Some(error.to_string().as_str())
    );

    let status = api
        .inspect_ui()
        .expect("UI inspection after rejected file selection")
        .elements
        .into_iter()
        .find(|element| element.id == "main.status")
        .expect("status element");
    assert_eq!(
        status.value.as_deref(),
        Some("Fehler: Die Eingabe konnte nicht verarbeitet werden.")
    );
}

#[test]
fn command_api_supports_the_same_transitions_as_the_ui_actions() {
    let mut api = api();

    api.execute_command(command("set_input", CommandArguments::value("API command")))
        .expect("set input via application command");

    let state = api.get_state().expect("state after API command");
    assert_eq!(state.status, "bereit");
    assert!(!state.busy);

    api.execute_command(command("open_about", CommandArguments::none()))
        .expect("open about dialog via application command");

    let opened = api
        .inspect_ui()
        .expect("inspection after opening about via command");
    assert!(element(&opened.elements, "about.dialog").is_some());

    api.execute_command(command("reset", CommandArguments::none()))
        .expect("reset via application command");

    let reset = api.get_state().expect("state after reset");
    assert_eq!(reset.status, "bereit");
    assert!(!reset.busy);
}

#[test]
fn the_presentation_layer_dispatches_through_the_same_store() {
    let mut api = api();
    api.store_mut()
        .dispatch(slint_agent_desktop::state::AppAction::OpenSettings)
        .unwrap();
    assert_eq!(api.get_state().unwrap().screen, "settings");
    assert_eq!(api.store().current_state().unwrap().revision, 1);
}

#[test]
fn the_data_summary_counts_the_active_notes() {
    let mut api = api();
    api.execute_ui_action(action("click", "file.settings", None))
        .expect("open settings");
    let before = api.inspect_ui().expect("settings without notes");
    assert_eq!(
        element(&before.elements, "settings.data.summary")
            .and_then(|e| e.value.clone())
            .as_deref(),
        Some("0 aktive Notizen")
    );
    api.execute_ui_action(action("click", "settings.close", None))
        .expect("close settings");

    api.execute_ui_action(action("set_value", "notes.title", Some("Erste Notiz")))
        .expect("set note title");
    api.execute_ui_action(action("click", "notes.save", None))
        .expect("save note");
    api.execute_ui_action(action("click", "notes.new", None))
        .expect("new note");
    api.execute_ui_action(action("set_value", "notes.title", Some("Zweite Notiz")))
        .expect("set second title");
    api.execute_ui_action(action("click", "notes.save", None))
        .expect("save second note");
    api.execute_ui_action(action("click", "file.settings", None))
        .expect("open settings again");
    let after = api.inspect_ui().expect("settings with notes");
    assert_eq!(
        element(&after.elements, "settings.data.summary")
            .and_then(|e| e.value.clone())
            .as_deref(),
        Some("2 aktive Notizen")
    );
    assert_eq!(
        element(&after.elements, "notes.item.1").and_then(|e| e.value.as_deref()),
        Some("Zweite Notiz")
    );
}
