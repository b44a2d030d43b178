//! The dispatcher of the program: a stricter reading of JSON-RPC that checks the version of
//! each request.

use vstd::prelude::*;

use crate::json;
use crate::json::{no_fields, push_field, Json, JsonView};
use crate::mcp;
use crate::text;

verus! {

/// The code for a request of another version of JSON-RPC.
pub const INVALID_REQUEST: i32 = -32600;

/// A request with a version, a method and parameters.
#[derive(Debug)]
pub struct Request {
    pub jsonrpc: String,
    pub id: Option<Json>,
    pub method: String,
    pub params: Json,
}

/// The mathematical content of a [`Request`].
#[verifier::ext_equal]
pub struct RequestView {
    pub jsonrpc: Seq<char>,
    pub id: Option<JsonView>,
    pub method: Seq<char>,
    pub params: JsonView,
}

impl DeepView for Request {
    type V = RequestView;

    open spec fn deep_view(&self) -> RequestView {
        RequestView {
            jsonrpc: self.jsonrpc@,
            id: self.id.deep_view(),
            method: self.method@,
            params: self.params.deep_view(),
        }
    }
}

/// The answer to a request, under its identifier where it has one.
#[derive(Debug, PartialEq, Eq)]
pub enum Reply {
    Success { id: Option<Json>, result: Json },
    Failure { id: Option<Json>, code: i32, message: String },
}

/// The mathematical content of a [`Reply`].
#[verifier::ext_equal]
pub enum ReplyView {
    Success { id: Option<JsonView>, result: JsonView },
    Failure { id: Option<JsonView>, code: i32, message: Seq<char> },
}

impl DeepView for Reply {
    type V = ReplyView;

    open spec fn deep_view(&self) -> ReplyView {
        match self {
            Reply::Success { id, result } => ReplyView::Success {
                id: id.deep_view(),
                result: result.deep_view(),
            },
            Reply::Failure { id, code, message } => ReplyView::Failure {
                id: id.deep_view(),
                code: *code,
                message: message@,
            },
        }
    }
}

/// What becomes of a line.
#[derive(Debug, PartialEq, Eq)]
pub enum Dispatch {
    /// It gets no answer.
    Ignore,
    /// It gets this answer.
    Reply(Reply),
    /// A tool is called; what it gives back is the result under this identifier.
    Call { id: Option<Json>, name: String, arguments: Json },
}

/// The mathematical content of a [`Dispatch`].
#[verifier::ext_equal]
pub enum DispatchView {
    Ignore,
    Reply(ReplyView),
    Call { id: Option<JsonView>, name: Seq<char>, arguments: JsonView },
}

impl DeepView for Dispatch {
    type V = DispatchView;

    open spec fn deep_view(&self) -> DispatchView {
        match self {
            Dispatch::Ignore => DispatchView::Ignore,
            Dispatch::Reply(reply) => DispatchView::Reply(reply.deep_view()),
            Dispatch::Call { id, name, arguments } => DispatchView::Call {
                id: id.deep_view(),
                name: name@,
                arguments: arguments.deep_view(),
            },
        }
    }
}

/// What the program says of itself.
pub open spec fn introduction() -> JsonView {
    JsonView::Object(
        seq![
            ("protocolVersion"@, JsonView::Text("2024-11-05"@)),
            (
                "capabilities"@,
                JsonView::Object(
                    seq![
                        ("tools"@, JsonView::Object(seq![("listChanged"@, JsonView::Bool(false))])),
                    ],
                ),
            ),
            (
                "serverInfo"@,
                JsonView::Object(
                    seq![
                        ("name"@, JsonView::Text("browser-mcp"@)),
                        ("version"@, JsonView::Text("0.1.0"@)),
                    ],
                ),
            ),
        ],
    )
}

fn introduce() -> (r: Json)
    ensures
        r.deep_view() == introduction(),
{
    let mut tools: Vec<(String, Json)> = no_fields();
    push_field(&mut tools, "listChanged", Json::Bool(false));
    assert(json::members(tools@)
        =~= introduction()->Object_0[1].1->Object_0[0].1->Object_0);
    let mut capabilities: Vec<(String, Json)> = no_fields();
    push_field(&mut capabilities, "tools", Json::object(tools));
    assert(json::members(capabilities@) =~= introduction()->Object_0[1].1->Object_0);
    let mut server: Vec<(String, Json)> = no_fields();
    push_field(&mut server, "name", Json::text("browser-mcp"));
    push_field(&mut server, "version", Json::text("0.1.0"));
    assert(json::members(server@) =~= introduction()->Object_0[2].1->Object_0);
    let mut fields: Vec<(String, Json)> = no_fields();
    push_field(&mut fields, "protocolVersion", Json::text("2024-11-05"));
    push_field(&mut fields, "capabilities", Json::object(capabilities));
    push_field(&mut fields, "serverInfo", Json::object(server));
    assert(json::members(fields@) =~= introduction()->Object_0);
    Json::object(fields)
}

/// The message for a request of another version.
pub open spec fn version_message(found: Seq<char>) -> Seq<char> {
    "Invalid JSON-RPC version: expected '2.0', got '"@ + found + "'"@
}

/// What becomes of a request.
pub open spec fn answered(request: RequestView, tools: Seq<JsonView>) -> DispatchView {
    let id: Option<JsonView> = request.id;
    if request.jsonrpc != mcp::JSONRPC@ {
        DispatchView::Reply(
            ReplyView::Failure {
                id,
                code: INVALID_REQUEST,
                message: version_message(request.jsonrpc),
            },
        )
    } else if request.method == "initialize"@ {
        DispatchView::Reply(ReplyView::Success { id, result: introduction() })
    } else if request.method == "notifications/initialized"@ || request.method == "initialized"@ {
        DispatchView::Ignore
    } else if request.method == "tools/list"@ {
        DispatchView::Reply(ReplyView::Success { id, result: mcp::tool_list(tools) })
    } else if request.method == "tools/call"@ {
        DispatchView::Call {
            id,
            name: request.params.str_or("name"@, ""@),
            arguments: mcp::call_arguments(request.params),
        }
    } else if request.method == "ping"@ {
        DispatchView::Reply(ReplyView::Success { id, result: JsonView::Object(seq![]) })
    } else {
        DispatchView::Reply(
            ReplyView::Failure {
                id,
                code: mcp::METHOD_NOT_FOUND,
                message: "Unknown method: "@ + request.method,
            },
        )
    }
}

/// What becomes of a line, where `parsed` is the request that it holds or says why it holds
/// none.
pub open spec fn dispatched(
    parsed: Result<RequestView, Seq<char>>,
    tools: Seq<JsonView>,
) -> DispatchView {
    match parsed {
        Ok(request) => answered(request, tools),
        Err(message) => DispatchView::Reply(
            ReplyView::Failure {
                id: None,
                code: mcp::PARSE_ERROR,
                message: "Parse error: "@ + message,
            },
        ),
    }
}

fn answer(request: Request, tools: Vec<Json>) -> (r: Dispatch)
    ensures
        r.deep_view() == answered(request.deep_view(), tools.deep_view()),
{
    let id: Option<Json> = request.id;
    let method: &str = request.method.as_str();
    if !text::same_text(request.jsonrpc.as_str(), mcp::JSONRPC) {
        let message: String =
            "Invalid JSON-RPC version: expected '2.0', got '".to_owned().concat(
            request.jsonrpc.as_str(),
        ).concat("'");
        Dispatch::Reply(Reply::Failure { id, code: INVALID_REQUEST, message })
    } else if text::same_text(method, "initialize") {
        Dispatch::Reply(Reply::Success { id, result: introduce() })
    } else if text::same_text(method, "notifications/initialized") || text::same_text(
        method,
        "initialized",
    ) {
        Dispatch::Ignore
    } else if text::same_text(method, "tools/list") {
        Dispatch::Reply(Reply::Success { id, result: mcp::list_tools(tools) })
    } else if text::same_text(method, "tools/call") {
        let name: String = request.params.str_or("name", "");
        Dispatch::Call { id, name, arguments: mcp::take_arguments(request.params) }
    } else if text::same_text(method, "ping") {
        Dispatch::Reply(Reply::Success { id, result: Json::object(no_fields()) })
    } else {
        Dispatch::Reply(
            Reply::Failure {
                id,
                code: mcp::METHOD_NOT_FOUND,
                message: "Unknown method: ".to_owned().concat(method),
            },
        )
    }
}

/// Decides what becomes of a line that was read; `tools` is what is listed of the tools.
pub fn dispatch(parsed: Result<Request, String>, tools: Vec<Json>) -> (r: Dispatch)
    ensures
        r.deep_view() == dispatched(
            match parsed {
                Ok(request) => Ok(request.deep_view()),
                Err(message) => Err(message@),
            },
            tools.deep_view(),
        ),
{
    match parsed {
        Ok(request) => answer(request, tools),
        Err(message) => Dispatch::Reply(
            Reply::Failure {
                id: None,
                code: mcp::PARSE_ERROR,
                message: "Parse error: ".to_owned().concat(message.as_str()),
            },
        ),
    }
}

/// What a tool gives back: its result as indented JSON text, or its message, marked as an error.
pub open spec fn tool_result_view(outcome: Result<Seq<char>, Seq<char>>) -> JsonView {
    match outcome {
        Ok(text) => mcp::text_content(text),
        Err(message) => JsonView::Object(
            mcp::text_content(message)->Object_0.push(("isError"@, JsonView::Bool(true))),
        ),
    }
}

/// Marks a message as an error of a tool.
fn describe_error(message: &str) -> (r: Json)
    ensures
        r.deep_view() == tool_result_view(Err(message@)),
{
    let mut fields: Vec<(String, Json)> = no_fields();
    push_field(&mut fields, "content", mcp::describe_items(message));
    push_field(&mut fields, "isError", Json::Bool(true));
    assert(json::members(fields@) =~= tool_result_view(Err(message@))->Object_0);
    Json::object(fields)
}

/// What a tool gives back: its result as indented JSON text, or its message, marked as an error.
pub fn tool_result(outcome: Result<Json, String>) -> (r: Json)
    ensures
        r.deep_view() == tool_result_view(mcp::printed(mcp::outcome_view(outcome))),
{
    match outcome {
        Ok(value) => {
            let text: String = json::pretty(&value);
            mcp::describe_content(text.as_str())
        },
        Err(message) => describe_error(message.as_str()),
    }
}

/// Answers a call with what the tool gave back.
pub fn reply_to_call(id: Option<Json>, result: Json) -> (r: Reply)
    ensures
        r.deep_view() == (ReplyView::Success { id: id.deep_view(), result: result.deep_view() }),
{
    Reply::Success { id, result }
}

impl DispatchView {
    /// What is done carries an identifier.
    pub open spec fn carries(self, id: Option<JsonView>) -> bool {
        match self {
            DispatchView::Ignore => false,
            DispatchView::Reply(ReplyView::Success { id: found, .. }) => found == id,
            DispatchView::Reply(ReplyView::Failure { id: found, .. }) => found == id,
            DispatchView::Call { id: found, .. } => found == id,
        }
    }
}

/// A request is ignored only where it is of the right version and says that the client is
/// initialized; every other one is answered or calls a tool, under its identifier.
pub proof fn lemma_dispatched(request: RequestView, tools: Seq<JsonView>)
    ensures
        answered(request, tools) is Ignore ==> request.jsonrpc == mcp::JSONRPC@ && (request.method
            == "notifications/initialized"@ || request.method == "initialized"@),
        !(answered(request, tools) is Ignore) ==> answered(request, tools).carries(request.id),
{
}

/// A request of another version is refused, whatever its method.
pub proof fn lemma_version_checked(request: RequestView, tools: Seq<JsonView>)
    requires
        request.jsonrpc != mcp::JSONRPC@,
    ensures
        answered(request, tools) == DispatchView::Reply(
            ReplyView::Failure {
                id: request.id,
                code: INVALID_REQUEST,
                message: version_message(request.jsonrpc),
            },
        ),
{
}

/// What is answered to each method of the right version, under the identifier of the request.
pub proof fn lemma_dispatch_methods(
    request: RequestView,
    tools: Seq<JsonView>,
    name: Seq<char>,
    args: JsonView,
    m: Seq<char>,
)
    ensures
        ({
            let right = request.jsonrpc == "2.0"@;
            let method = request.method;
            let id = request.id;
            let done = answered(request, tools);
            &&& !right ==> done == DispatchView::Reply(
                ReplyView::Failure {
                    id,
                    code: (-32600) as i32,
                    message: "Invalid JSON-RPC version: expected '2.0', got '"@ + request.jsonrpc
                        + "'"@,
                },
            )
            &&& right && method == "initialize"@ ==> (done matches DispatchView::Reply(
                ReplyView::Success { id: found, result: JsonView::Object(fields) },
            ) && found == id && fields =~= seq![
                ("protocolVersion"@, JsonView::Text("2024-11-05"@)),
                (
                    "capabilities"@,
                    JsonView::Object(
                        seq![
                            (
                                "tools"@,
                                JsonView::Object(seq![("listChanged"@, JsonView::Bool(false))]),
                            ),
                        ],
                    ),
                ),
                (
                    "serverInfo"@,
                    JsonView::Object(
                        seq![
                            ("name"@, JsonView::Text("browser-mcp"@)),
                            ("version"@, JsonView::Text("0.1.0"@)),
                        ],
                    ),
                ),
            ])
            &&& right && (method == "notifications/initialized"@ || method == "initialized"@)
                ==> done is Ignore
            &&& right && method == "tools/list"@ ==> (done matches DispatchView::Reply(
                ReplyView::Success { id: found, result: JsonView::Object(fields) },
            ) && found == id && fields =~= seq![("tools"@, JsonView::Array(tools))])
            &&& right && method == "tools/call"@ && request.params.get("name"@) == Some(
                JsonView::Text(name),
            ) && request.params.get("arguments"@) == Some(args) ==> done == (DispatchView::Call {
                id,
                name,
                arguments: args,
            })
            &&& right && method == "ping"@ ==> (done matches DispatchView::Reply(
                ReplyView::Success { id: found, result: JsonView::Object(fields) },
            ) && found == id && fields.len() == 0)
            &&& right && method != "initialize"@ && method != "notifications/initialized"@ && method
                != "initialized"@ && method != "tools/list"@ && method != "tools/call"@ && method
                != "ping"@ ==> done == DispatchView::Reply(
                ReplyView::Failure { id, code: (-32601) as i32, message: "Unknown method: "@ + method },
            )
        }),
        dispatched(Ok(request), tools) == answered(request, tools),
        dispatched(Err(m), tools) == DispatchView::Reply(
            ReplyView::Failure { id: None, code: (-32700) as i32, message: "Parse error: "@ + m },
        ),
{
    reveal_strlit("initialize");
    reveal_strlit("notifications/initialized");
    reveal_strlit("initialized");
    reveal_strlit("tools/list");
    reveal_strlit("tools/call");
    reveal_strlit("ping");
    assert("initialize"@.len() == 10 && "tools/list"@.len() == 10 && "tools/call"@.len() == 10);
    assert("notifications/initialized"@.len() == 25 && "initialized"@.len() == 11);
    assert("ping"@.len() == 4);
    assert("tools/call"@[0] != "initialize"@[0]);
    assert("tools/list"@[0] != "initialize"@[0]);
    assert("tools/call"@[6] != "tools/list"@[6]);
}

/// What a tool gives back holds its text, or its message and a mark that it is an error.
pub proof fn lemma_tool_results(text: Seq<char>, message: Seq<char>)
    ensures
        tool_result_view(Ok(text)) == mcp::text_content(text),
        tool_result_view(Err(message)) matches JsonView::Object(fields) && fields.len() == 2
            && fields[0] == mcp::text_content(message)->Object_0[0] && fields[1] == (
            "isError"@,
            JsonView::Bool(true),
        ),
{
}

} // verus!
