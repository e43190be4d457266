use slint_agent_desktop::protocol::{
    error_code, http_error_code, http_reason, is_safe_screenshot_name, route, Route,
};
use slint_agent_desktop::state::ErrorKind;

#[test]
fn http_routes_are_matched_on_method_and_path() {
    assert_eq!(route("GET", "/health"), Route::Health);
    assert_eq!(route("GET", "/agent/state"), Route::State);
    assert_eq!(route("GET", "/agent/ui"), Route::Ui);
    assert_eq!(route("POST", "/agent/command"), Route::Command);
    assert_eq!(route("POST", "/agent/ui/action"), Route::UiAction);
    assert_eq!(route("POST", "/agent/state"), Route::NotFound);
    assert_eq!(route("GET", "/agent/command"), Route::NotFound);
}

#[test]
fn http_statuses_and_error_codes() {
    assert_eq!(http_reason(200), "OK");
    assert_eq!(http_reason(400), "Bad Request");
    assert_eq!(http_reason(404), "Not Found");
    assert_eq!(http_reason(500), "Error");
    assert_eq!(http_error_code(ErrorKind::InvalidPayload), "invalid_input");
    assert_eq!(http_error_code(ErrorKind::Domain), "domain_error");
    assert_eq!(http_error_code(ErrorKind::Repository), "internal_error");
    assert_eq!(
        http_error_code(ErrorKind::DataRecoveryRequired),
        "internal_error"
    );
}

#[test]
fn json_rpc_error_codes_follow_the_message() {
    assert_eq!(error_code("method not found: x"), -32601);
    assert_eq!(error_code("missing tool name"), -32602);
    assert_eq!(error_code("unknown tool: y"), -32602);
    assert_eq!(error_code("resource not found: z"), -32602);
    assert_eq!(error_code("agent service unavailable"), -32603);
}

#[test]
fn screenshot_names_are_restricted() {
    assert!(is_safe_screenshot_name("main-window_2"));
    assert!(is_safe_screenshot_name(""));
    assert!(!is_safe_screenshot_name("../etc"));
    assert!(!is_safe_screenshot_name("a b"));
    assert!(!is_safe_screenshot_name("ä"));
}
