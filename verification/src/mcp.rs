//! Decisions of the agent's stdio tool server (JSON-RPC over lines): which
//! requests it answers, which tool call or resource read becomes which
//! request to the agent service, and where a screenshot may be written.
use crate::protocol::{is_safe_screenshot_name, safe_name_spec};
use crate::state::opt_view;
use crate::text::{concat, concat3, str_eq};
use vstd::prelude::*;

verus! {

/// The JSON-RPC requests the tool server knows.
#[derive(Debug, Clone, Copy, PartialEq, Eq, Structural)]
pub enum McpRequest {
    Initialize,
    ToolsList,
    ResourcesList,
    ResourcesRead,
    ToolsCall,
    Ping,
    /// The client's `notifications/initialized`, which gets no answer.
    InitializedNotification,
}

/// Which request a JSON-RPC `method` names, or the error to answer with.
pub open spec fn request_spec(method: Option<Seq<char>>) -> Result<McpRequest, Seq<char>> {
    match method {
        None => Err("missing JSON-RPC method"@),
        Some(m) => if m == "notifications/initialized"@ {
            Ok(McpRequest::InitializedNotification)
        } else if m == "initialize"@ {
            Ok(McpRequest::Initialize)
        } else if m == "tools/list"@ {
            Ok(McpRequest::ToolsList)
        } else if m == "resources/list"@ {
            Ok(McpRequest::ResourcesList)
        } else if m == "resources/read"@ {
            Ok(McpRequest::ResourcesRead)
        } else if m == "tools/call"@ {
            Ok(McpRequest::ToolsCall)
        } else if m == "ping"@ {
            Ok(McpRequest::Ping)
        } else {
            Err("method not found: "@ + m)
        },
    }
}

/// The view of an optional string slice.
pub open spec fn str_opt_view(o: Option<&str>) -> Option<Seq<char>> {
    match o {
        Some(s) => Some(s@),
        None => None,
    }
}

/// The request that a JSON-RPC `method` names.
pub fn classify_request(method: Option<&str>) -> (r: Result<McpRequest, String>)
    ensures
        match r {
            Ok(k) => request_spec(str_opt_view(method)) == Ok::<McpRequest, Seq<char>>(k),
            Err(e) => request_spec(str_opt_view(method)) == Err::<McpRequest, Seq<char>>(e@),
        },
{
    match method {
        None => Err("missing JSON-RPC method".to_owned()),
        Some(m) => if str_eq(m, "notifications/initialized") {
            Ok(McpRequest::InitializedNotification)
        } else if str_eq(m, "initialize") {
            Ok(McpRequest::Initialize)
        } else if str_eq(m, "tools/list") {
            Ok(McpRequest::ToolsList)
        } else if str_eq(m, "resources/list") {
            Ok(McpRequest::ResourcesList)
        } else if str_eq(m, "resources/read") {
            Ok(McpRequest::ResourcesRead)
        } else if str_eq(m, "tools/call") {
            Ok(McpRequest::ToolsCall)
        } else if str_eq(m, "ping") {
            Ok(McpRequest::Ping)
        } else {
            Err(concat("method not found: ", m))
        },
    }
}

/// The error for a request parameter that is absent or not a string.
pub fn missing_parameter(pointer: &str) -> (r: String)
    ensures
        r@ == "missing string parameter: "@ + pointer@,
{
    concat("missing string parameter: ", pointer)
}

/// The string arguments of a tool call; an argument that is absent or not
/// a string is `None`.
#[derive(Debug, Clone, PartialEq, Eq)]
pub struct ToolArguments {
    pub command: Option<String>,
    pub action: Option<String>,
    pub id: Option<String>,
    pub value: Option<String>,
    pub name: Option<String>,
}

/// Tool arguments as mathematical values.
pub struct ToolArgumentsView {
    pub command: Option<Seq<char>>,
    pub action: Option<Seq<char>>,
    pub id: Option<Seq<char>>,
    pub value: Option<Seq<char>>,
    pub name: Option<Seq<char>>,
}

impl View for ToolArguments {
    type V = ToolArgumentsView;

    open spec fn view(&self) -> ToolArgumentsView {
        ToolArgumentsView {
            command: opt_view(self.command),
            action: opt_view(self.action),
            id: opt_view(self.id),
            value: opt_view(self.value),
            name: opt_view(self.name),
        }
    }
}

/// What a tool call asks of the agent service.
#[derive(Debug, Clone, PartialEq, Eq)]
pub enum ToolCall {
    /// Read the application state (`GET /agent/state`).
    ReadState,
    /// Read the semantic UI tree (`GET /agent/ui`).
    InspectUi,
    /// Run an application command with a `value` argument.
    Command { command: String, value: String },
    /// Perform a semantic UI action.
    Action { action: String, id: String, value: Option<String> },
    /// Capture the screen into the file at `path`.
    Screenshot { path: String },
}

/// A tool call as mathematical values.
pub enum ToolCallView {
    ReadState,
    InspectUi,
    Command { command: Seq<char>, value: Seq<char> },
    Action { action: Seq<char>, id: Seq<char>, value: Option<Seq<char>> },
    Screenshot { path: Seq<char> },
}

impl View for ToolCall {
    type V = ToolCallView;

    open spec fn view(&self) -> ToolCallView {
        match self {
            ToolCall::ReadState => ToolCallView::ReadState,
            ToolCall::InspectUi => ToolCallView::InspectUi,
            ToolCall::Command { command, value } => ToolCallView::Command {
                command: command@,
                value: value@,
            },
            ToolCall::Action { action, id, value } => ToolCallView::Action {
                action: action@,
                id: id@,
                value: opt_view(*value),
            },
            ToolCall::Screenshot { path } => ToolCallView::Screenshot { path: path@ },
        }
    }
}

/// The error for a tool argument that is absent or not a string.
pub open spec fn missing_argument(key: Seq<char>) -> Seq<char> {
    "missing string argument: "@ + key
}

/// The error for a screenshot name outside the allowed characters.
pub open spec fn unsafe_name_error() -> Seq<char> {
    "screenshot name may contain only ASCII letters, numbers, '-' or '_'"@
}

/// The tools that the server lists, in the order it lists them.
pub open spec fn offered_tools() -> Seq<Seq<char>> {
    seq!["app_state"@, "ui_inspect"@, "app_command"@, "ui_action"@, "ui_screenshot"@]
}

/// The names of the tools that the server lists, in order.
pub fn tool_names() -> (r: Vec<&'static str>)
    ensures
        r@.len() == offered_tools().len(),
        forall|i: int| 0 <= i < r@.len() ==> (#[trigger] r@[i])@ == offered_tools()[i],
{
    let r = vec!["app_state", "ui_inspect", "app_command", "ui_action", "ui_screenshot"];
    assert(r@[0]@ == offered_tools()[0]);
    r
}

/// What a call of tool `name` with arguments `a` asks for, or the error to
/// answer with.
pub open spec fn tool_plan(name: Seq<char>, a: ToolArgumentsView) -> Result<ToolCallView, Seq<char>> {
    if name == "app_state"@ {
        Ok(ToolCallView::ReadState)
    } else if name == "ui_inspect"@ {
        Ok(ToolCallView::InspectUi)
    } else if name == "app_command"@ {
        match a.command {
            None => Err(missing_argument("command"@)),
            Some(c) => Ok(
                ToolCallView::Command {
                    command: c,
                    value: match a.value {
                        Some(v) => v,
                        None => Seq::empty(),
                    },
                },
            ),
        }
    } else if name == "ui_action"@ {
        match (a.action, a.id) {
            (None, _) => Err(missing_argument("action"@)),
            (Some(_), None) => Err(missing_argument("id"@)),
            (Some(act), Some(id)) => Ok(ToolCallView::Action { action: act, id, value: a.value }),
        }
    } else if name == "ui_screenshot"@ {
        let n = match a.name {
            Some(n) => n,
            None => "mcp"@,
        };
        if safe_name_spec(n) {
            Ok(ToolCallView::Screenshot { path: "artifacts/screenshots/"@ + n + ".png"@ })
        } else {
            Err(unsafe_name_error())
        }
    } else {
        Err("unknown tool: "@ + name)
    }
}

fn missing_argument_exec(key: &str) -> (r: String)
    ensures
        r@ == missing_argument(key@),
{
    concat("missing string argument: ", key)
}

/// What a call of tool `name` asks of the agent service.
pub fn plan_tool(name: &str, arguments: &ToolArguments) -> (r: Result<ToolCall, String>)
    ensures
        match r {
            Ok(c) => tool_plan(name@, arguments@) == Ok::<ToolCallView, Seq<char>>(c@),
            Err(e) => tool_plan(name@, arguments@) == Err::<ToolCallView, Seq<char>>(e@),
        },
{
    if str_eq(name, "app_state") {
        Ok(ToolCall::ReadState)
    } else if str_eq(name, "ui_inspect") {
        Ok(ToolCall::InspectUi)
    } else if str_eq(name, "app_command") {
        match &arguments.command {
            None => Err(missing_argument_exec("command")),
            Some(c) => {
                let value = match &arguments.value {
                    Some(v) => v.clone(),
                    None => String::new(),
                };
                Ok(ToolCall::Command { command: c.clone(), value })
            },
        }
    } else if str_eq(name, "ui_action") {
        match (&arguments.action, &arguments.id) {
            (None, _) => Err(missing_argument_exec("action")),
            (Some(_), None) => Err(missing_argument_exec("id")),
            (Some(act), Some(id)) => {
                let value = match &arguments.value {
                    Some(v) => Some(v.clone()),
                    None => None,
                };
                Ok(ToolCall::Action { action: act.clone(), id: id.clone(), value })
            },
        }
    } else if str_eq(name, "ui_screenshot") {
        let n = match &arguments.name {
            Some(n) => n.clone(),
            None => "mcp".to_owned(),
        };
        if is_safe_screenshot_name(n.as_str()) {
            Ok(ToolCall::Screenshot { path: concat3("artifacts/screenshots/", n.as_str(), ".png") })
        } else {
            Err("screenshot name may contain only ASCII letters, numbers, '-' or '_'".to_owned())
        }
    } else {
        Err(concat("unknown tool: ", name))
    }
}

/// The resources the tool server offers.
#[derive(Debug, Clone, Copy, PartialEq, Eq, Structural)]
pub enum ResourceSource {
    /// `app://state`, read from the agent service.
    State,
    /// `ui://tree`, read from the agent service.
    UiTree,
    /// `app://logs`, the recent application log.
    Logs,
}

/// The resource that `uri` names, or the error to answer with.
pub open spec fn resource_spec(uri: Seq<char>) -> Result<ResourceSource, Seq<char>> {
    if uri == "app://state"@ {
        Ok(ResourceSource::State)
    } else if uri == "ui://tree"@ {
        Ok(ResourceSource::UiTree)
    } else if uri == "app://logs"@ {
        Ok(ResourceSource::Logs)
    } else {
        Err("resource not found: "@ + uri)
    }
}

/// The resource that `uri` names.
pub fn plan_resource(uri: &str) -> (r: Result<ResourceSource, String>)
    ensures
        match r {
            Ok(k) => resource_spec(uri@) == Ok::<ResourceSource, Seq<char>>(k),
            Err(e) => resource_spec(uri@) == Err::<ResourceSource, Seq<char>>(e@),
        },
{
    if str_eq(uri, "app://state") {
        Ok(ResourceSource::State)
    } else if str_eq(uri, "ui://tree") {
        Ok(ResourceSource::UiTree)
    } else if str_eq(uri, "app://logs") {
        Ok(ResourceSource::Logs)
    } else {
        Err(concat("resource not found: ", uri))
    }
}

/// The MIME type of a resource.
pub fn resource_mime_type(source: ResourceSource) -> (r: &'static str)
    ensures
        r@ == (match source {
            ResourceSource::Logs => "text/plain"@,
            _ => "application/json"@,
        }),
{
    match source {
        ResourceSource::Logs => "text/plain",
        _ => "application/json",
    }
}

} // verus!
