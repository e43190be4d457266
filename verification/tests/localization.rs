use slint_agent_desktop::domain::AppStatus;
use slint_agent_desktop::localization::{Catalog, Locale};

#[test]
fn german_is_the_default_and_unknown_keys_are_safe() {
    let catalog = Catalog::default();
    assert_eq!(catalog.locale(), Locale::German);
    assert_eq!(catalog.text("status.ready"), "bereit");
    assert_eq!(catalog.text("missing.key"), "missing.key");
}

#[test]
fn additional_locale_can_be_selected_without_persistence_changes() {
    assert_eq!(
        Catalog::new(Locale::English).text("action.cancel"),
        "Cancel"
    );
}

#[test]
fn status_labels_are_resolved_through_the_catalog() {
    assert_eq!(
        Catalog::default().status(&AppStatus::Busy),
        "wird ausgeführt"
    );
    assert_eq!(
        Catalog::new(Locale::English).status(&AppStatus::Busy),
        "running"
    );
}

#[test]
fn error_prefix_is_resolved_through_the_catalog_per_locale() {
    assert_eq!(Catalog::default().text("status.error_prefix"), "Fehler: ");
    assert_eq!(
        Catalog::new(Locale::English).text("status.error_prefix"),
        "Error: "
    );
}

#[test]
fn every_status_has_a_label_in_both_locales() {
    let german = Catalog::default();
    let english = Catalog::new(Locale::English);
    assert_eq!(german.status(&AppStatus::Ready), "bereit");
    assert_eq!(german.status(&AppStatus::Success), "erfolgreich");
    assert_eq!(german.status(&AppStatus::Error), "Fehler");
    assert_eq!(english.status(&AppStatus::Ready), "ready");
    assert_eq!(english.status(&AppStatus::Success), "successful");
    assert_eq!(english.status(&AppStatus::Error), "error");
    assert_eq!(german.text("action.cancel"), "Abbrechen");
    assert_eq!(english.text("missing.key"), "missing.key");
}
