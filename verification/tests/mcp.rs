use slint_agent_desktop::mcp::{
    classify_request, missing_parameter, plan_resource, plan_tool, resource_mime_type,
    tool_names, McpRequest, ResourceSource, ToolArguments, ToolCall,
};
use slint_agent_desktop::protocol::error_code;

fn args() -> ToolArguments {
    ToolArguments {
        command: None,
        action: None,
        id: None,
        value: None,
        name: None,
    }
}

#[test]
fn json_rpc_methods_are_classified() {
    assert_eq!(classify_request(Some("initialize")), Ok(McpRequest::Initialize));
    assert_eq!(classify_request(Some("tools/list")), Ok(McpRequest::ToolsList));
    assert_eq!(classify_request(Some("tools/call")), Ok(McpRequest::ToolsCall));
    assert_eq!(classify_request(Some("resources/list")), Ok(McpRequest::ResourcesList));
    assert_eq!(classify_request(Some("resources/read")), Ok(McpRequest::ResourcesRead));
    assert_eq!(classify_request(Some("ping")), Ok(McpRequest::Ping));
    assert_eq!(
        classify_request(Some("notifications/initialized")),
        Ok(McpRequest::InitializedNotification)
    );
    let unknown = classify_request(Some("shutdown")).unwrap_err();
    assert_eq!(unknown, "method not found: shutdown");
    assert_eq!(error_code(&unknown), -32601);
    let missing = classify_request(None).unwrap_err();
    assert_eq!(missing, "missing JSON-RPC method");
    assert_eq!(error_code(&missing), -32602);
    assert_eq!(
        missing_parameter("/params/name"),
        "missing string parameter: /params/name"
    );
}

#[test]
fn tool_calls_become_agent_requests() {
    assert_eq!(plan_tool("app_state", &args()), Ok(ToolCall::ReadState));
    assert_eq!(plan_tool("ui_inspect", &args()), Ok(ToolCall::InspectUi));
    let command = ToolArguments {
        command: Some("reset".into()),
        ..args()
    };
    assert_eq!(
        plan_tool("app_command", &command),
        Ok(ToolCall::Command {
            command: "reset".into(),
            value: "".into()
        })
    );
    let action = ToolArguments {
        action: Some("set_value".into()),
        id: Some("main.input".into()),
        value: Some("x".into()),
        ..args()
    };
    assert_eq!(
        plan_tool("ui_action", &action),
        Ok(ToolCall::Action {
            action: "set_value".into(),
            id: "main.input".into(),
            value: Some("x".into())
        })
    );
    assert_eq!(
        plan_tool("app_command", &args()),
        Err("missing string argument: command".to_string())
    );
    let no_id = ToolArguments {
        action: Some("click".into()),
        ..args()
    };
    assert_eq!(
        plan_tool("ui_action", &no_id),
        Err("missing string argument: id".to_string())
    );
    assert_eq!(
        plan_tool("nope", &args()),
        Err("unknown tool: nope".to_string())
    );
}

#[test]
fn screenshots_get_a_safe_path() {
    assert_eq!(
        plan_tool("ui_screenshot", &args()),
        Ok(ToolCall::Screenshot {
            path: "artifacts/screenshots/mcp.png".into()
        })
    );
    let named = ToolArguments {
        name: Some("after-save_1".into()),
        ..args()
    };
    assert_eq!(
        plan_tool("ui_screenshot", &named),
        Ok(ToolCall::Screenshot {
            path: "artifacts/screenshots/after-save_1.png".into()
        })
    );
    let escaping = ToolArguments {
        name: Some("../x".into()),
        ..args()
    };
    assert_eq!(
        plan_tool("ui_screenshot", &escaping),
        Err("screenshot name may contain only ASCII letters, numbers, '-' or '_'".to_string())
    );
}

#[test]
fn resources_are_found_by_uri() {
    assert_eq!(plan_resource("app://state"), Ok(ResourceSource::State));
    assert_eq!(plan_resource("ui://tree"), Ok(ResourceSource::UiTree));
    assert_eq!(plan_resource("app://logs"), Ok(ResourceSource::Logs));
    let missing = plan_resource("app://nothing").unwrap_err();
    assert_eq!(missing, "resource not found: app://nothing");
    assert_eq!(error_code(&missing), -32602);
    assert_eq!(resource_mime_type(ResourceSource::Logs), "text/plain");
    assert_eq!(resource_mime_type(ResourceSource::State), "application/json");
}

#[test]
fn every_listed_tool_can_be_called() {
    let names = tool_names();
    assert_eq!(
        names,
        vec!["app_state", "ui_inspect", "app_command", "ui_action", "ui_screenshot"]
    );
    for name in names {
        match plan_tool(name, &args()) {
            Ok(_) => {}
            Err(message) => assert!(!message.starts_with("unknown tool")),
        }
    }
}
