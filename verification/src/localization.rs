//! A small catalog of localized text that depends on runtime state: the
//! label of the current status, the error prefix, and a few others.
use crate::domain::AppStatus;
use crate::text::str_eq;
use vstd::prelude::*;

verus! {

/// Supported user-interface locales. German is the product default.
#[derive(Debug, Clone, Copy, PartialEq, Eq, Hash, Structural)]
pub enum Locale {
    German,
    English,
}

impl Default for Locale {
    fn default() -> (r: Self)
        ensures
            r == Locale::German,
    {
        Locale::German
    }
}

/// The text a locale gives for a key, if the catalog knows the key.
pub open spec fn localized_text(locale: Locale, key: Seq<char>) -> Option<Seq<char>> {
    if key == "status.ready"@ {
        Some(
            match locale {
                Locale::German => "bereit"@,
                Locale::English => "ready"@,
            },
        )
    } else if key == "status.busy"@ {
        Some(
            match locale {
                Locale::German => "wird ausgeführt"@,
                Locale::English => "running"@,
            },
        )
    } else if key == "status.success"@ {
        Some(
            match locale {
                Locale::German => "erfolgreich"@,
                Locale::English => "successful"@,
            },
        )
    } else if key == "status.error"@ {
        Some(
            match locale {
                Locale::German => "Fehler"@,
                Locale::English => "error"@,
            },
        )
    } else if key == "status.error_prefix"@ {
        Some(
            match locale {
                Locale::German => "Fehler: "@,
                Locale::English => "Error: "@,
            },
        )
    } else if key == "action.cancel"@ {
        Some(
            match locale {
                Locale::German => "Abbrechen"@,
                Locale::English => "Cancel"@,
            },
        )
    } else {
        None
    }
}

/// The catalog key of a status label.
pub open spec fn status_key(status: AppStatus) -> Seq<char> {
    match status {
        AppStatus::Ready => "status.ready"@,
        AppStatus::Busy => "status.busy"@,
        AppStatus::Success => "status.success"@,
        AppStatus::Error => "status.error"@,
    }
}

/// What the catalog shows for a key: its localized text, or the key itself.
pub open spec fn text_spec(locale: Locale, key: Seq<char>) -> Seq<char> {
    match localized_text(locale, key) {
        Some(t) => t,
        None => key,
    }
}

/// Translation catalog for one locale.
#[derive(Debug, Clone)]
pub struct Catalog {
    locale: Locale,
}

impl Catalog {
    pub closed spec fn locale_spec(&self) -> Locale {
        self.locale
    }

    pub fn new(locale: Locale) -> (r: Self)
        ensures
            r.locale_spec() == locale,
    {
        Catalog { locale }
    }

    pub fn locale(&self) -> (r: Locale)
        ensures
            r == self.locale_spec(),
    {
        self.locale
    }

    /// The text for `key`; an unknown key is shown as itself.
    pub fn text<'a>(&'a self, key: &'a str) -> (r: &'a str)
        ensures
            r@ == text_spec(self.locale_spec(), key@),
    {
        let german = match self.locale {
            Locale::German => true,
            Locale::English => false,
        };
        if str_eq(key, "status.ready") {
            if german {
                "bereit"
            } else {
                "ready"
            }
        } else if str_eq(key, "status.busy") {
            if german {
                "wird ausgeführt"
            } else {
                "running"
            }
        } else if str_eq(key, "status.success") {
            if german {
                "erfolgreich"
            } else {
                "successful"
            }
        } else if str_eq(key, "status.error") {
            if german {
                "Fehler"
            } else {
                "error"
            }
        } else if str_eq(key, "status.error_prefix") {
            if german {
                "Fehler: "
            } else {
                "Error: "
            }
        } else if str_eq(key, "action.cancel") {
            if german {
                "Abbrechen"
            } else {
                "Cancel"
            }
        } else {
            key
        }
    }

    /// The label of a status.
    pub fn status(&self, status: &AppStatus) -> (r: &str)
        ensures
            r@ == text_spec(self.locale_spec(), status_key(*status)),
    {
        let key = match status {
            AppStatus::Ready => "status.ready",
            AppStatus::Busy => "status.busy",
            AppStatus::Success => "status.success",
            AppStatus::Error => "status.error",
        };
        self.text(key)
    }
}

impl Default for Catalog {
    fn default() -> (r: Self)
        ensures
            r.locale_spec() == Locale::German,
    {
        Catalog::new(Locale::German)
    }
}

} // verus!
