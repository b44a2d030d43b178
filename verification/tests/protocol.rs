//! The protocol of the server and the dispatcher of the program.

use browser_mcp::json::Json;
use browser_mcp::mcp::{
    accepts_line, execute_tool, handle_request, serve_line, Handling, JsonRpcError, JsonRpcRequest, JsonRpcResponse, PendingCall, ToolCall,
};
use browser_mcp::rpc::{dispatch, reply_to_call, tool_result, Dispatch, Reply, Request};
use browser_mcp::tools::{argument, default_argument, get_tool_definitions};

fn object(fields: Vec<(&str, Json)>) -> Json {
    let mut members: Vec<(String, Json)> = Vec::new();
    for (name, value) in fields {
        members.push((name.to_string(), value));
    }
    Json::Object(members)
}

fn request(id: Option<Json>, method: Option<&str>, params: Option<Json>) -> JsonRpcRequest {
    JsonRpcRequest {
        jsonrpc: Some("2.0".to_string()),
        id,
        method: method.map(|m| m.to_string()),
        params,
    }
}

fn failure(id: Json, code: i32, message: &str) -> JsonRpcResponse {
    JsonRpcResponse {
        jsonrpc: "2.0".to_string(),
        id,
        result: None,
        error: Some(JsonRpcError { code, message: message.to_string(), data: None }),
    }
}

fn success(id: Json, result: Json) -> JsonRpcResponse {
    JsonRpcResponse { jsonrpc: "2.0".to_string(), id, result: Some(result), error: None }
}

fn to_value(json: &Json) -> serde_json::Value {
    match json {
        Json::Null => serde_json::Value::Null,
        Json::Bool(b) => serde_json::Value::Bool(*b),
        Json::Number(t) => serde_json::from_str(t).unwrap(),
        Json::Text(t) => serde_json::Value::String(t.clone()),
        Json::Array(items) => serde_json::Value::Array(items.iter().map(to_value).collect()),
        Json::Object(fields) => {
            let mut map = serde_json::Map::new();
            for (name, value) in fields {
                map.insert(name.clone(), to_value(value));
            }
            serde_json::Value::Object(map)
        }
    }
}

const TOOLS: &str = r#"[
{"name": "navigate", "description": "Navigate browser to URL with auto-wait", "inputSchema": {"type": "object", "properties": {
    "url": { "type": "string", "description": "URL to navigate to" },
    "wait_until": { "type": "string", "description": "Wait condition: load, networkidle", "default": "load" } }, "required": ["url"] } },
{"name": "click", "description": "Click element by selector with retry", "inputSchema": {"type": "object", "properties": {
    "selector": { "type": "string", "description": "CSS selector" },
    "timeout_ms": { "type": "integer", "description": "Timeout in ms", "default": 10000 } }, "required": ["selector"] } },
{"name": "fill", "description": "Type text into input field", "inputSchema": {"type": "object", "properties": {
    "selector": { "type": "string", "description": "CSS selector" },
    "value": { "type": "string", "description": "Text to type" },
    "clear": { "type": "boolean", "description": "Clear field first", "default": true } }, "required": ["selector", "value"] } },
{"name": "screenshot", "description": "Take screenshot, returns base64 or saves to path", "inputSchema": {"type": "object", "properties": {
    "path": { "type": "string", "description": "Save path (optional)" },
    "full_page": { "type": "boolean", "description": "Full page capture", "default": false },
    "quality": { "type": "integer", "description": "JPEG quality 1-100", "default": 80 } } } },
{"name": "get_html", "description": "Get page HTML content", "inputSchema": {"type": "object", "properties": {
    "selector": { "type": "string", "description": "CSS selector (optional, full page if omitted)" } } } },
{"name": "get_text", "description": "Get text content of element", "inputSchema": {"type": "object", "properties": {
    "selector": { "type": "string", "description": "CSS selector" } }, "required": ["selector"] } },
{"name": "eval", "description": "Execute JavaScript in page context", "inputSchema": {"type": "object", "properties": {
    "script": { "type": "string", "description": "JavaScript code" } }, "required": ["script"] } },
{"name": "wait_for", "description": "Wait for element to appear", "inputSchema": {"type": "object", "properties": {
    "selector": { "type": "string", "description": "CSS selector" },
    "state": { "type": "string", "description": "visible, hidden, attached", "default": "visible" },
    "timeout_ms": { "type": "integer", "description": "Timeout in ms", "default": 10000 } }, "required": ["selector"] } },
{"name": "press", "description": "Press keyboard key", "inputSchema": {"type": "object", "properties": {
    "key": { "type": "string", "description": "Key name: Enter, Tab, Escape, etc" } }, "required": ["key"] } },
{"name": "select", "description": "Select dropdown option", "inputSchema": {"type": "object", "properties": {
    "selector": { "type": "string", "description": "CSS selector" },
    "value": { "type": "string", "description": "Option value" } }, "required": ["selector", "value"] } },
{"name": "scroll", "description": "Scroll page or element", "inputSchema": {"type": "object", "properties": {
    "direction": { "type": "string", "description": "up, down, left, right", "default": "down" },
    "amount": { "type": "integer", "description": "Pixels to scroll", "default": 500 },
    "selector": { "type": "string", "description": "Element to scroll (optional)" } } } },
{"name": "cookies", "description": "Manage cookies: get, set, clear", "inputSchema": {"type": "object", "properties": {
    "action": { "type": "string", "description": "get, set, clear", "default": "get" },
    "name": { "type": "string", "description": "Cookie name (for set)" },
    "value": { "type": "string", "description": "Cookie value (for set)" },
    "domain": { "type": "string", "description": "Cookie domain (for set)" } } } },
{"name": "status", "description": "Get browser status and current URL", "inputSchema": { "type": "object", "properties": {} } },
{"name": "configure", "description": "Configure browser settings", "inputSchema": {"type": "object", "properties": {
    "auto_wait": { "type": "boolean", "description": "Auto-wait for elements" },
    "timeout_ms": { "type": "integer", "description": "Default timeout" },
    "headless": { "type": "boolean", "description": "Headless mode" } } } },
{"name": "close", "description": "Close browser and cleanup", "inputSchema": { "type": "object", "properties": {} } }
]"#;

#[test]
fn tool_definitions_as_json() {
    let expected: serde_json::Value = serde_json::from_str(TOOLS).unwrap();
    assert_eq!(to_value(&Json::Array(get_tool_definitions())), expected);
}

#[test]
fn listed_tools_are_callable_under_different_names() {
    let mut names: Vec<String> = Vec::new();
    for tool in get_tool_definitions() {
        let name = tool.str_or("name", "");
        assert!(execute_tool(&name, Json::Null).is_ok());
        assert!(!names.contains(&name));
        names.push(name);
    }
    assert_eq!(names.len(), 15);
}

#[test]
fn required_arguments_are_described() {
    for tool in get_tool_definitions() {
        let schema = tool.get("inputSchema").unwrap();
        if let Some(Json::Array(required)) = schema.get("required") {
            for name in required {
                let properties = schema.get("properties").unwrap();
                assert!(properties.get(name.as_str().unwrap()).is_some());
            }
        }
    }
}

#[test]
fn tools_by_name() {
    let args = || object(vec![("url", Json::text("x"))]);
    assert_eq!(execute_tool("navigate", args()), Ok(ToolCall::Navigate(args())));
    assert_eq!(execute_tool("eval", args()), Ok(ToolCall::Evaluate(args())));
    assert_eq!(execute_tool("evaluate", args()), Ok(ToolCall::Evaluate(args())));
    assert_eq!(execute_tool("get_html", args()), Ok(ToolCall::GetHtml(args())));
    assert_eq!(execute_tool("close", args()), Ok(ToolCall::Close));
    assert_eq!(execute_tool("fly", args()), Err("Unknown tool: fly".to_string()));
    assert_eq!(execute_tool("", args()), Err("Unknown tool: ".to_string()));
}

#[test]
fn initialize_is_answered() {
    let handling = handle_request("initialize", Some(Json::number(1)), None);
    let expected = object(vec![
        ("protocolVersion", Json::text("2024-11-05")),
        ("capabilities", object(vec![("tools", object(vec![]))])),
        (
            "serverInfo",
            object(vec![("name", Json::text("browser-mcp")), ("version", Json::text("2.0.0"))]),
        ),
    ]);
    assert_eq!(handling, Handling::Reply(success(Json::number(1), expected)));
}

#[test]
fn tools_are_listed() {
    let handling = handle_request("tools/list", Some(Json::text("a")), None);
    let expected = object(vec![("tools", Json::Array(get_tool_definitions()))]);
    assert_eq!(handling, Handling::Reply(success(Json::text("a"), expected)));
}

#[test]
fn tool_calls_are_answered_with_their_outcome() {
    let params = object(vec![
        ("name", Json::text("press")),
        ("arguments", object(vec![("key", Json::text("Enter"))])),
    ]);
    let handling = handle_request("tools/call", Some(Json::number(7)), Some(params));
    let call = ToolCall::Press(object(vec![("key", Json::text("Enter"))]));
    assert_eq!(handling, Handling::Call(call, PendingCall { id: Json::number(7) }));
    let content = object(vec![(
        "content",
        Json::Array(vec![object(vec![("type", Json::text("text")), ("text", Json::text("{}"))])]),
    )]);
    assert_eq!(
        PendingCall { id: Json::number(7) }.answer(Ok("{}".to_string())),
        success(Json::number(7), content)
    );
    assert_eq!(
        PendingCall { id: Json::number(7) }.finish(Err("no".to_string())),
        failure(Json::number(7), -32000, "no")
    );
}

fn text_of(result: &Json) -> String {
    match result.get("content") {
        Some(Json::Array(items)) => items[0].str_or("text", ""),
        _ => String::new(),
    }
}

#[test]
fn results_are_indented_and_read_back() {
    let result = || object(vec![
        ("b", Json::Array(vec![Json::number(1), Json::Number("-2.5".to_string()), Json::Null])),
        ("a", Json::text("x\"\n")),
        ("c", Json::Array(vec![])),
        ("d", object(vec![])),
    ]);
    let response = PendingCall { id: Json::Null }.finish(Ok(result()));
    let text = text_of(&response.result.unwrap());
    assert_eq!(
        text,
        "{\n  \"a\": \"x\\\"\\n\",\n  \"b\": [\n    1,\n    -2.5,\n    null\n  ],\n  \"c\": [],\n  \"d\": {}\n}"
    );
    assert_eq!(serde_json::from_str::<serde_json::Value>(&text).unwrap(), to_value(&result()));
    assert_eq!(text_of(&tool_result(Ok(result()))), text);
}

#[test]
fn deep_results_are_read_back_up_to_the_limit() {
    let nested = |depth: usize| {
        let mut value = Json::Null;
        for _ in 0..depth {
            value = Json::Array(vec![value]);
        }
        value
    };
    for (depth, readable) in [(127usize, true), (128, false)] {
        let text = text_of(&tool_result(Ok(nested(depth))));
        assert_eq!(serde_json::from_str::<serde_json::Value>(&text).is_ok(), readable);
    }
}

#[test]
fn failed_tools_are_marked() {
    let expected = object(vec![
        (
            "content",
            Json::Array(vec![object(vec![("type", Json::text("text")), ("text", Json::text("no"))])]),
        ),
        ("isError", Json::Bool(true)),
    ]);
    assert_eq!(tool_result(Err("no".to_string())), expected);
}

#[test]
fn arguments_and_their_defaults() {
    let click = &get_tool_definitions()[1];
    let args = object(vec![("timeout_ms", Json::number(5))]);
    assert_eq!(argument(&args, click, "timeout_ms"), Some(&Json::number(5)));
    assert_eq!(argument(&Json::Null, click, "timeout_ms"), Some(&Json::number(10000)));
    assert_eq!(argument(&args, click, "selector"), None);
    assert_eq!(argument(&args, click, "nope"), None);
    assert_eq!(argument(&args, &Json::Null, "selector"), None);
    let fill = &get_tool_definitions()[2];
    assert_eq!(default_argument(fill, "clear"), Some(&Json::Bool(true)));
}

#[test]
fn a_bad_line_stops_nothing() {
    let lines = vec![
        Ok(request(Some(Json::number(1)), Some("nope"), None)),
        Err("bad".to_string()),
        Ok(request(None, Some("nope"), None)),
        Ok(request(Some(Json::number(2)), Some("nope"), None)),
    ];
    let mut answered: Vec<JsonRpcResponse> = Vec::new();
    for line in lines {
        if let Some(Handling::Reply(response)) = serve_line(line) {
            answered.push(response);
        }
    }
    assert_eq!(
        answered,
        vec![
            failure(Json::number(1), -32601, "Method not found: nope"),
            failure(Json::Null, -32700, "Parse error: bad"),
            failure(Json::number(2), -32601, "Method not found: nope"),
        ]
    );
}

#[test]
fn tool_calls_without_arguments() {
    let params = object(vec![("name", Json::text("status"))]);
    assert_eq!(
        handle_request("tools/call", None, Some(params)),
        Handling::Call(ToolCall::Status(object(vec![])), PendingCall { id: Json::Null })
    );
    assert_eq!(
        handle_request("tools/call", Some(Json::number(1)), None),
        Handling::Reply(failure(Json::number(1), -32000, "Unknown tool: "))
    );
}

#[test]
fn unknown_tools_and_methods_fail() {
    let params = object(vec![("name", Json::text("fly"))]);
    assert_eq!(
        handle_request("tools/call", Some(Json::number(2)), Some(params)),
        Handling::Reply(failure(Json::number(2), -32000, "Unknown tool: fly"))
    );
    assert_eq!(
        handle_request("nope", Some(Json::number(3)), None),
        Handling::Reply(failure(Json::number(3), -32601, "Method not found: nope"))
    );
}

#[test]
fn lines_without_an_answer() {
    assert_eq!(serve_line(Ok(request(Some(Json::number(1)), None, None))), None);
    assert_eq!(serve_line(Ok(request(None, Some("initialize"), None))), None);
    assert_eq!(
        serve_line(Ok(request(Some(Json::number(1)), Some("notifications/initialized"), None))),
        None
    );
    assert_eq!(
        serve_line(Err("expected value".to_string())),
        Some(Handling::Reply(failure(Json::Null, -32700, "Parse error: expected value")))
    );
    assert_eq!(
        serve_line(Ok(request(Some(Json::number(4)), Some("notifications"), None))),
        Some(Handling::Reply(failure(Json::number(4), -32601, "Method not found: notifications")))
    );
}

#[test]
fn blank_lines_are_skipped() {
    assert!(!accepts_line(""));
    assert!(!accepts_line(" \t\r\n"));
    for blank in [
        '\u{9}', '\u{a}', '\u{b}', '\u{c}', '\u{d}', ' ', '\u{85}', '\u{a0}', '\u{1680}', '\u{2000}',
        '\u{200a}', '\u{2028}', '\u{2029}', '\u{202f}', '\u{205f}', '\u{3000}',
    ] {
        assert!(!accepts_line(&blank.to_string()));
    }
    for seen in ['\u{8}', '\u{e}', '\u{1c}', '\u{180e}', '\u{200b}', '\u{2060}', '\u{feff}'] {
        assert!(accepts_line(&seen.to_string()));
    }
    assert!(accepts_line("  {} "));
}

fn strict(version: &str, method: &str, params: Json) -> Request {
    Request {
        jsonrpc: version.to_string(),
        id: Some(Json::number(5)),
        method: method.to_string(),
        params,
    }
}

#[test]
fn dispatcher_checks_the_version() {
    for method in ["initialize", "initialized", "ping", "nope"] {
        assert_eq!(
            dispatch(Ok(strict("1.0", method, Json::Null)), vec![]),
            Dispatch::Reply(Reply::Failure {
                id: Some(Json::number(5)),
                code: -32600,
                message: "Invalid JSON-RPC version: expected '2.0', got '1.0'".to_string(),
            })
        );
    }
}

#[test]
fn dispatcher_answers() {
    let id = || Some(Json::number(5));
    let introduction = object(vec![
        ("protocolVersion", Json::text("2024-11-05")),
        ("capabilities", object(vec![("tools", object(vec![("listChanged", Json::Bool(false))]))])),
        (
            "serverInfo",
            object(vec![("name", Json::text("browser-mcp")), ("version", Json::text("0.1.0"))]),
        ),
    ]);
    assert_eq!(
        dispatch(Ok(strict("2.0", "initialize", Json::Null)), vec![]),
        Dispatch::Reply(Reply::Success { id: id(), result: introduction })
    );
    assert_eq!(
        dispatch(Ok(strict("2.0", "tools/list", Json::Null)), vec![Json::text("t")]),
        Dispatch::Reply(Reply::Success {
            id: id(),
            result: object(vec![("tools", Json::Array(vec![Json::text("t")]))]),
        })
    );
    assert_eq!(
        dispatch(Ok(strict("2.0", "ping", Json::Null)), vec![]),
        Dispatch::Reply(Reply::Success { id: id(), result: object(vec![]) })
    );
    assert_eq!(
        dispatch(Ok(strict("2.0", "nope", Json::Null)), vec![]),
        Dispatch::Reply(Reply::Failure {
            id: id(),
            code: -32601,
            message: "Unknown method: nope".to_string(),
        })
    );
    assert_eq!(
        dispatch(Err("bad".to_string()), vec![]),
        Dispatch::Reply(Reply::Failure {
            id: None,
            code: -32700,
            message: "Parse error: bad".to_string(),
        })
    );
}

#[test]
fn dispatcher_ignores_only_initialized() {
    for method in ["initialized", "notifications/initialized"] {
        assert_eq!(dispatch(Ok(strict("2.0", method, Json::Null)), vec![]), Dispatch::Ignore);
    }
    assert_ne!(
        dispatch(Ok(strict("2.0", "notifications/other", Json::Null)), vec![]),
        Dispatch::Ignore
    );
}

#[test]
fn dispatcher_calls_tools() {
    let params = object(vec![("name", Json::text("click")), ("arguments", Json::Bool(true))]);
    assert_eq!(
        dispatch(Ok(strict("2.0", "tools/call", params)), vec![]),
        Dispatch::Call {
            id: Some(Json::number(5)),
            name: "click".to_string(),
            arguments: Json::Bool(true),
        }
    );
    assert_eq!(
        dispatch(Ok(strict("2.0", "tools/call", Json::Null)), vec![]),
        Dispatch::Call {
            id: Some(Json::number(5)),
            name: "".to_string(),
            arguments: object(vec![]),
        }
    );
    assert_eq!(
        reply_to_call(None, Json::text("r")),
        Reply::Success { id: None, result: Json::text("r") }
    );
}
