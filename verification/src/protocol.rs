//! Decisions of the agent transports: which HTTP endpoint a request
//! addresses, how errors are classified for HTTP and JSON-RPC answers, and
//! which screenshot names are safe.
use crate::state::ErrorKind;
use crate::text::{starts_with, str_eq};
use vstd::prelude::*;

verus! {

/// The endpoints of the agent's HTTP transport.
#[derive(Debug, Clone, Copy, PartialEq, Eq, Structural)]
pub enum Route {
    Health,
    State,
    Ui,
    Command,
    UiAction,
    NotFound,
}

/// The endpoint that a method and a path address.
pub open spec fn route_spec(method: Seq<char>, path: Seq<char>) -> Route {
    if method == "GET"@ && path == "/health"@ {
        Route::Health
    } else if method == "GET"@ && path == "/agent/state"@ {
        Route::State
    } else if method == "GET"@ && path == "/agent/ui"@ {
        Route::Ui
    } else if method == "POST"@ && path == "/agent/command"@ {
        Route::Command
    } else if method == "POST"@ && path == "/agent/ui/action"@ {
        Route::UiAction
    } else {
        Route::NotFound
    }
}

/// The endpoint that a method and a path address.
pub fn route(method: &str, path: &str) -> (r: Route)
    ensures
        r == route_spec(method@, path@),
{
    let get = str_eq(method, "GET");
    let post = str_eq(method, "POST");
    if get && str_eq(path, "/health") {
        Route::Health
    } else if get && str_eq(path, "/agent/state") {
        Route::State
    } else if get && str_eq(path, "/agent/ui") {
        Route::Ui
    } else if post && str_eq(path, "/agent/command") {
        Route::Command
    } else if post && str_eq(path, "/agent/ui/action") {
        Route::UiAction
    } else {
        Route::NotFound
    }
}

pub open spec fn reason_spec(status: u16) -> Seq<char> {
    if status == 200 {
        "OK"@
    } else if status == 400 {
        "Bad Request"@
    } else if status == 404 {
        "Not Found"@
    } else {
        "Error"@
    }
}

/// The reason phrase of an HTTP status.
pub fn http_reason(status: u16) -> (r: &'static str)
    ensures
        r@ == reason_spec(status),
{
    if status == 200 {
        "OK"
    } else if status == 400 {
        "Bad Request"
    } else if status == 404 {
        "Not Found"
    } else {
        "Error"
    }
}

pub open spec fn http_error_code_spec(kind: ErrorKind) -> Seq<char> {
    match kind {
        ErrorKind::InvalidPayload => "invalid_input"@,
        ErrorKind::Domain => "domain_error"@,
        ErrorKind::Repository => "internal_error"@,
        ErrorKind::DataRecoveryRequired => "internal_error"@,
    }
}

/// The code that the HTTP transport reports for an error of class `kind`.
pub fn http_error_code(kind: ErrorKind) -> (r: &'static str)
    ensures
        r@ == http_error_code_spec(kind),
{
    match kind {
        ErrorKind::InvalidPayload => "invalid_input",
        ErrorKind::Domain => "domain_error",
        ErrorKind::Repository => "internal_error",
        ErrorKind::DataRecoveryRequired => "internal_error",
    }
}

/// The JSON-RPC error code for an error message: method not found,
/// invalid parameters, or an internal error.
pub open spec fn error_code_spec(message: Seq<char>) -> i64 {
    if crate::contract::starts_with_spec(message, "method not found"@) {
        -32601i64
    } else if crate::contract::starts_with_spec(message, "missing"@)
        || crate::contract::starts_with_spec(message, "unknown tool"@)
        || crate::contract::starts_with_spec(message, "resource not found"@) {
        -32602i64
    } else {
        -32603i64
    }
}

/// The JSON-RPC error code for an error message.
pub fn error_code(message: &str) -> (r: i64)
    ensures
        r == error_code_spec(message@),
{
    if starts_with(message, "method not found") {
        -32601i64
    } else if starts_with(message, "missing") || starts_with(message, "unknown tool") || starts_with(
        message,
        "resource not found",
    ) {
        -32602i64
    } else {
        -32603i64
    }
}

/// Whether a screenshot name holds only ASCII letters, digits, `-` and `_`.
pub open spec fn safe_name_spec(name: Seq<char>) -> bool {
    forall|i: int|
        0 <= i < name.len() ==> {
            let c = #[trigger] name[i];
            ('a' <= c <= 'z') || ('A' <= c <= 'Z') || ('0' <= c <= '9') || c == '-' || c == '_'
        }
}

/// Whether a screenshot name is safe to use in a file name.
pub fn is_safe_screenshot_name(name: &str) -> (r: bool)
    ensures
        r == safe_name_spec(name@),
{
    let n = name.unicode_len();
    let mut i: usize = 0;
    while i < n
        invariant
            n == name@.len(),
            i <= n,
            forall|j: int|
                0 <= j < i ==> {
                    let c = #[trigger] name@[j];
                    ('a' <= c <= 'z') || ('A' <= c <= 'Z') || ('0' <= c <= '9') || c == '-' || c
                        == '_'
                },
        decreases n - i,
    {
        let c = name.get_char(i);
        if !(('a' <= c && c <= 'z') || ('A' <= c && c <= 'Z') || ('0' <= c && c <= '9') || c
            == '-' || c == '_') {
            return false;
        }
        i = i + 1;
    }
    true
}

} // verus!
