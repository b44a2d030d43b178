//! The protocol of the server: one JSON-RPC message per line.

use vstd::prelude::*;

use crate::json;
use crate::json::{no_fields, no_items, push_field, push_item, Json, JsonView};
use crate::text;
use crate::tools;

verus! {

/// The version of JSON-RPC that is spoken.
pub const JSONRPC: &'static str = "2.0";

/// The code for a line that is no request.
pub const PARSE_ERROR: i32 = -32700;

/// The code for a method that is not known.
pub const METHOD_NOT_FOUND: i32 = -32601;

/// The code for a tool that failed.
pub const TOOL_ERROR: i32 = -32000;

/// A request, with all that may be missing from it.
#[derive(Debug)]
pub struct JsonRpcRequest {
    pub jsonrpc: Option<String>,
    pub id: Option<Json>,
    pub method: Option<String>,
    pub params: Option<Json>,
}

/// The mathematical content of a [`JsonRpcRequest`].
#[verifier::ext_equal]
pub struct RequestView {
    pub jsonrpc: Option<Seq<char>>,
    pub id: Option<JsonView>,
    pub method: Option<Seq<char>>,
    pub params: Option<JsonView>,
}

impl DeepView for JsonRpcRequest {
    type V = RequestView;

    open spec fn deep_view(&self) -> RequestView {
        RequestView {
            jsonrpc: self.jsonrpc.deep_view(),
            id: self.id.deep_view(),
            method: self.method.deep_view(),
            params: self.params.deep_view(),
        }
    }
}

/// Why a request failed.
#[derive(Debug, PartialEq, Eq)]
pub struct JsonRpcError {
    pub code: i32,
    pub message: String,
    pub data: Option<Json>,
}

/// The mathematical content of a [`JsonRpcError`].
#[verifier::ext_equal]
pub struct RpcErrorView {
    pub code: i32,
    pub message: Seq<char>,
    pub data: Option<JsonView>,
}

impl DeepView for JsonRpcError {
    type V = RpcErrorView;

    open spec fn deep_view(&self) -> RpcErrorView {
        RpcErrorView {
            code: self.code,
            message: self.message@,
            data: self.data.deep_view(),
        }
    }
}

/// The answer to a request.
#[derive(Debug, PartialEq, Eq)]
pub struct JsonRpcResponse {
    pub jsonrpc: String,
    pub id: Json,
    pub result: Option<Json>,
    pub error: Option<JsonRpcError>,
}

/// The mathematical content of a [`JsonRpcResponse`].
#[verifier::ext_equal]
pub struct ResponseView {
    pub jsonrpc: Seq<char>,
    pub id: JsonView,
    pub result: Option<JsonView>,
    pub error: Option<RpcErrorView>,
}

impl DeepView for JsonRpcResponse {
    type V = ResponseView;

    open spec fn deep_view(&self) -> ResponseView {
        ResponseView {
            jsonrpc: self.jsonrpc@,
            id: self.id.deep_view(),
            result: self.result.deep_view(),
            error: self.error.deep_view(),
        }
    }
}

impl ResponseView {
    /// The answer to a request that succeeded.
    pub open spec fn success(id: JsonView, result: JsonView) -> ResponseView {
        ResponseView { jsonrpc: JSONRPC@, id, result: Some(result), error: None }
    }

    /// The answer to a request that failed.
    pub open spec fn failure(id: JsonView, code: i32, message: Seq<char>) -> ResponseView {
        ResponseView {
            jsonrpc: JSONRPC@,
            id,
            result: None,
            error: Some(RpcErrorView { code, message, data: None }),
        }
    }
}

impl JsonRpcResponse {
    fn success(id: Json, result: Json) -> (r: JsonRpcResponse)
        ensures
            r.deep_view() == ResponseView::success(id.deep_view(), result.deep_view()),
    {
        JsonRpcResponse { jsonrpc: JSONRPC.to_owned(), id, result: Some(result), error: None }
    }

    fn failure(id: Json, code: i32, message: String) -> (r: JsonRpcResponse)
        ensures
            r.deep_view() == ResponseView::failure(id.deep_view(), code, message@),
    {
        JsonRpcResponse {
            jsonrpc: JSONRPC.to_owned(),
            id,
            result: None,
            error: Some(JsonRpcError { code, message, data: None }),
        }
    }
}

/// A call of one of the tools, with its arguments.
#[derive(Debug, PartialEq, Eq)]
pub enum ToolCall<J> {
    Navigate(J),
    Click(J),
    Fill(J),
    Screenshot(J),
    GetHtml(J),
    GetText(J),
    Evaluate(J),
    WaitFor(J),
    Press(J),
    Select(J),
    Scroll(J),
    Cookies(J),
    Status(J),
    Configure(J),
    Close,
}

impl DeepView for ToolCall<Json> {
    type V = ToolCall<JsonView>;

    open spec fn deep_view(&self) -> ToolCall<JsonView> {
        match self {
            ToolCall::Navigate(a) => ToolCall::Navigate(a.deep_view()),
            ToolCall::Click(a) => ToolCall::Click(a.deep_view()),
            ToolCall::Fill(a) => ToolCall::Fill(a.deep_view()),
            ToolCall::Screenshot(a) => ToolCall::Screenshot(a.deep_view()),
            ToolCall::GetHtml(a) => ToolCall::GetHtml(a.deep_view()),
            ToolCall::GetText(a) => ToolCall::GetText(a.deep_view()),
            ToolCall::Evaluate(a) => ToolCall::Evaluate(a.deep_view()),
            ToolCall::WaitFor(a) => ToolCall::WaitFor(a.deep_view()),
            ToolCall::Press(a) => ToolCall::Press(a.deep_view()),
            ToolCall::Select(a) => ToolCall::Select(a.deep_view()),
            ToolCall::Scroll(a) => ToolCall::Scroll(a.deep_view()),
            ToolCall::Cookies(a) => ToolCall::Cookies(a.deep_view()),
            ToolCall::Status(a) => ToolCall::Status(a.deep_view()),
            ToolCall::Configure(a) => ToolCall::Configure(a.deep_view()),
            ToolCall::Close => ToolCall::Close,
        }
    }
}

/// The tool that a name calls; the message where it calls none.
pub open spec fn tool_call<J>(name: Seq<char>, args: J) -> Result<ToolCall<J>, Seq<char>> {
    if name == "navigate"@ {
        Ok(ToolCall::Navigate(args))
    } else if name == "click"@ {
        Ok(ToolCall::Click(args))
    } else if name == "fill"@ {
        Ok(ToolCall::Fill(args))
    } else if name == "screenshot"@ {
        Ok(ToolCall::Screenshot(args))
    } else if name == "get_html"@ {
        Ok(ToolCall::GetHtml(args))
    } else if name == "get_text"@ {
        Ok(ToolCall::GetText(args))
    } else if name == "eval"@ || name == "evaluate"@ {
        Ok(ToolCall::Evaluate(args))
    } else if name == "wait_for"@ {
        Ok(ToolCall::WaitFor(args))
    } else if name == "press"@ {
        Ok(ToolCall::Press(args))
    } else if name == "select"@ {
        Ok(ToolCall::Select(args))
    } else if name == "scroll"@ {
        Ok(ToolCall::Scroll(args))
    } else if name == "cookies"@ {
        Ok(ToolCall::Cookies(args))
    } else if name == "status"@ {
        Ok(ToolCall::Status(args))
    } else if name == "configure"@ {
        Ok(ToolCall::Configure(args))
    } else if name == "close"@ {
        Ok(ToolCall::Close)
    } else {
        Err("Unknown tool: "@ + name)
    }
}

/// Finds the tool that a name calls; the message where it calls none.
pub fn execute_tool(name: &str, args: Json) -> (r: Result<ToolCall<Json>, String>)
    ensures
        match r {
            Ok(call) => tool_call(name@, args.deep_view()) == Ok::<ToolCall<JsonView>, Seq<char>>(
                call.deep_view(),
            ),
            Err(message) => tool_call(name@, args.deep_view()) == Err::<
                ToolCall<JsonView>,
                Seq<char>,
            >(message@),
        },
{
    if text::same_text(name, "navigate") {
        Ok(ToolCall::Navigate(args))
    } else if text::same_text(name, "click") {
        Ok(ToolCall::Click(args))
    } else if text::same_text(name, "fill") {
        Ok(ToolCall::Fill(args))
    } else if text::same_text(name, "screenshot") {
        Ok(ToolCall::Screenshot(args))
    } else if text::same_text(name, "get_html") {
        Ok(ToolCall::GetHtml(args))
    } else if text::same_text(name, "get_text") {
        Ok(ToolCall::GetText(args))
    } else if text::same_text(name, "eval") || text::same_text(name, "evaluate") {
        Ok(ToolCall::Evaluate(args))
    } else if text::same_text(name, "wait_for") {
        Ok(ToolCall::WaitFor(args))
    } else if text::same_text(name, "press") {
        Ok(ToolCall::Press(args))
    } else if text::same_text(name, "select") {
        Ok(ToolCall::Select(args))
    } else if text::same_text(name, "scroll") {
        Ok(ToolCall::Scroll(args))
    } else if text::same_text(name, "cookies") {
        Ok(ToolCall::Cookies(args))
    } else if text::same_text(name, "status") {
        Ok(ToolCall::Status(args))
    } else if text::same_text(name, "configure") {
        Ok(ToolCall::Configure(args))
    } else if text::same_text(name, "close") {
        Ok(ToolCall::Close)
    } else {
        Err("Unknown tool: ".to_owned().concat(name))
    }
}

/// A request that waits for its tool.
#[derive(Debug, PartialEq, Eq)]
pub struct PendingCall<J> {
    pub id: J,
}

impl DeepView for PendingCall<Json> {
    type V = PendingCall<JsonView>;

    open spec fn deep_view(&self) -> PendingCall<JsonView> {
        PendingCall { id: self.id.deep_view() }
    }
}

/// What becomes of a request: an answer at once, or a call of a tool whose outcome is answered.
#[derive(Debug, PartialEq, Eq)]
pub enum Handling {
    Reply(JsonRpcResponse),
    Call(ToolCall<Json>, PendingCall<Json>),
}

/// The mathematical content of a [`Handling`].
#[verifier::ext_equal]
pub enum HandlingView {
    Reply(ResponseView),
    Call(ToolCall<JsonView>, PendingCall<JsonView>),
}

impl DeepView for Handling {
    type V = HandlingView;

    open spec fn deep_view(&self) -> HandlingView {
        match self {
            Handling::Reply(response) => HandlingView::Reply(response.deep_view()),
            Handling::Call(call, pending) => HandlingView::Call(
                call.deep_view(),
                pending.deep_view(),
            ),
        }
    }
}

/// What the server says of itself.
pub open spec fn introduction() -> JsonView {
    JsonView::Object(
        seq![
            ("protocolVersion"@, JsonView::Text("2024-11-05"@)),
            (
                "capabilities"@,
                JsonView::Object(seq![("tools"@, JsonView::Object(seq![]))]),
            ),
            (
                "serverInfo"@,
                JsonView::Object(
                    seq![
                        ("name"@, JsonView::Text("browser-mcp"@)),
                        ("version"@, JsonView::Text("2.0.0"@)),
                    ],
                ),
            ),
        ],
    )
}

fn introduce() -> (r: Json)
    ensures
        r.deep_view() == introduction(),
{
    let mut capabilities: Vec<(String, Json)> = no_fields();
    push_field(&mut capabilities, "tools", Json::object(no_fields()));
    assert(json::members(capabilities@) =~= introduction()->Object_0[1].1->Object_0);
    let mut server: Vec<(String, Json)> = no_fields();
    push_field(&mut server, "name", Json::text("browser-mcp"));
    push_field(&mut server, "version", Json::text("2.0.0"));
    assert(json::members(server@) =~= introduction()->Object_0[2].1->Object_0);
    let mut fields: Vec<(String, Json)> = no_fields();
    push_field(&mut fields, "protocolVersion", Json::text("2024-11-05"));
    push_field(&mut fields, "capabilities", Json::object(capabilities));
    push_field(&mut fields, "serverInfo", Json::object(server));
    assert(json::members(fields@) =~= introduction()->Object_0);
    Json::object(fields)
}

/// The list of tools as a result.
pub open spec fn tool_list(tools: Seq<JsonView>) -> JsonView {
    JsonView::Object(seq![("tools"@, JsonView::Array(tools))])
}

/// The list of tools as a result.
pub(crate) fn list_tools(tools: Vec<Json>) -> (r: Json)
    ensures
        r.deep_view() == tool_list(tools.deep_view()),
{
    let mut fields: Vec<(String, Json)> = no_fields();
    push_field(&mut fields, "tools", Json::array(tools));
    assert(json::members(fields@) =~= tool_list(tools.deep_view())->Object_0);
    Json::object(fields)
}

/// A text as the result of a tool.
pub open spec fn text_content(text: Seq<char>) -> JsonView {
    JsonView::Object(
        seq![
            (
                "content"@,
                JsonView::Array(
                    seq![
                        JsonView::Object(
                            seq![
                                ("type"@, JsonView::Text("text"@)),
                                ("text"@, JsonView::Text(text)),
                            ],
                        ),
                    ],
                ),
            ),
        ],
    )
}

/// The items of a result with one text.
pub(crate) fn describe_items(text: &str) -> (r: Json)
    ensures
        r.deep_view() == text_content(text@)->Object_0[0].1,
{
    let ghost whole: JsonView = text_content(text@);
    let mut item: Vec<(String, Json)> = no_fields();
    push_field(&mut item, "type", Json::text("text"));
    push_field(&mut item, "text", Json::text(text));
    assert(json::members(item@) =~= whole->Object_0[0].1->Array_0[0]->Object_0);
    let mut content: Vec<Json> = no_items();
    push_item(&mut content, Json::object(item));
    assert(content.deep_view() =~= whole->Object_0[0].1->Array_0);
    Json::array(content)
}

/// A text as the result of a tool.
pub fn describe_content(text: &str) -> (r: Json)
    ensures
        r.deep_view() == text_content(text@),
{
    let mut fields: Vec<(String, Json)> = no_fields();
    push_field(&mut fields, "content", describe_items(text));
    assert(json::members(fields@) =~= text_content(text@)->Object_0);
    Json::object(fields)
}

/// The arguments of a tool call; none where they are not given.
pub open spec fn call_arguments(params: JsonView) -> JsonView {
    match params.get("arguments"@) {
        Some(args) => args,
        None => JsonView::Object(seq![]),
    }
}

/// Takes the arguments of a tool call.
pub(crate) fn take_arguments(params: Json) -> (r: Json)
    ensures
        r.deep_view() == call_arguments(params.deep_view()),
{
    match params.into_member("arguments") {
        Some(args) => args,
        None => Json::object(no_fields()),
    }
}

/// What becomes of a request for a method.
pub open spec fn handled(
    method: Seq<char>,
    id: Option<JsonView>,
    params: Option<JsonView>,
) -> HandlingView {
    let id: JsonView = match id {
        Some(id) => id,
        None => JsonView::Null,
    };
    if method == "initialize"@ {
        HandlingView::Reply(ResponseView::success(id, introduction()))
    } else if method == "tools/list"@ {
        HandlingView::Reply(ResponseView::success(id, tool_list(tools::tool_definitions())))
    } else if method == "tools/call"@ {
        let params: JsonView = match params {
            Some(params) => params,
            None => JsonView::Object(seq![]),
        };
        match tool_call(params.str_or("name"@, ""@), call_arguments(params)) {
            Ok(call) => HandlingView::Call(call, PendingCall { id }),
            Err(message) => HandlingView::Reply(ResponseView::failure(id, TOOL_ERROR, message)),
        }
    } else {
        HandlingView::Reply(
            ResponseView::failure(id, METHOD_NOT_FOUND, "Method not found: "@ + method),
        )
    }
}

/// Decides what becomes of a request for a method.
pub fn handle_request(method: &str, id: Option<Json>, params: Option<Json>) -> (r: Handling)
    ensures
        r.deep_view() == handled(method@, id.deep_view(), params.deep_view()),
{
    let id: Json = match id {
        Some(id) => id,
        None => Json::Null,
    };
    if text::same_text(method, "initialize") {
        Handling::Reply(JsonRpcResponse::success(id, introduce()))
    } else if text::same_text(method, "tools/list") {
        Handling::Reply(JsonRpcResponse::success(id, list_tools(tools::get_tool_definitions())))
    } else if text::same_text(method, "tools/call") {
        let params: Json = match params {
            Some(params) => params,
            None => Json::object(no_fields()),
        };
        let name: String = params.str_or("name", "");
        match execute_tool(name.as_str(), take_arguments(params)) {
            Ok(call) => Handling::Call(call, PendingCall { id }),
            Err(message) => Handling::Reply(JsonRpcResponse::failure(id, TOOL_ERROR, message)),
        }
    } else {
        Handling::Reply(
            JsonRpcResponse::failure(
                id,
                METHOD_NOT_FOUND,
                "Method not found: ".to_owned().concat(method),
            ),
        )
    }
}

impl PendingCall<JsonView> {
    /// The answer once the tool is done: its result as text, or its message.
    pub open spec fn answer(self, outcome: Result<Seq<char>, Seq<char>>) -> ResponseView {
        match outcome {
            Ok(text) => ResponseView::success(self.id, text_content(text)),
            Err(message) => ResponseView::failure(self.id, TOOL_ERROR, message),
        }
    }
}

/// What a tool came to, with its result as indented JSON text.
pub open spec fn printed(outcome: Result<JsonView, Seq<char>>) -> Result<Seq<char>, Seq<char>> {
    match outcome {
        Ok(value) => Ok(json::pretty_text(value)),
        Err(message) => Err(message),
    }
}

/// The content of what a tool came to.
pub open spec fn outcome_view(outcome: Result<Json, String>) -> Result<JsonView, Seq<char>> {
    match outcome {
        Ok(value) => Ok(value.deep_view()),
        Err(message) => Err(message@),
    }
}

impl PendingCall<Json> {
    /// Answers the request with a text, or with the message of a tool that failed.
    pub fn answer(self, outcome: Result<String, String>) -> (r: JsonRpcResponse)
        ensures
            r.deep_view() == self.deep_view().answer(
                match outcome {
                    Ok(text) => Ok(text@),
                    Err(message) => Err(message@),
                },
            ),
    {
        match outcome {
            Ok(text) => JsonRpcResponse::success(self.id, describe_content(text.as_str())),
            Err(message) => JsonRpcResponse::failure(self.id, TOOL_ERROR, message),
        }
    }

    /// Answers the request once the tool is done: with its result as indented JSON text, which
    /// reads back as the result, or with its message.
    pub fn finish(self, outcome: Result<Json, String>) -> (r: JsonRpcResponse)
        ensures
            r.deep_view() == self.deep_view().answer(printed(outcome_view(outcome))),
            outcome matches Ok(value) ==> (json::readable(value.deep_view()) ==> json::reads_as(
                json::pretty_text(value.deep_view()),
                value.deep_view(),
            )),
    {
        match outcome {
            Ok(value) => {
                let text: String = json::pretty(&value);
                self.answer(Ok(text))
            },
            Err(message) => self.answer(Err(message)),
        }
    }
}

/// Whether a line holds more than blanks.
pub fn accepts_line(line: &str) -> (r: bool)
    ensures
        r == text::holds_text(line@),
{
    proof {
        text::lemma_trimmed(line@);
    }
    text::trim(line).unicode_len() > 0
}

/// The prefix of methods that only tell something.
pub const NOTIFICATIONS: &'static str = "notifications/";

/// What becomes of a line, where `parsed` is the request that it holds or says why it holds
/// none. A request without a method, a request without an identifier and a notification get no
/// answer.
pub open spec fn served(parsed: Result<RequestView, Seq<char>>) -> Option<HandlingView> {
    match parsed {
        Err(message) => Some(
            HandlingView::Reply(
                ResponseView::failure(JsonView::Null, PARSE_ERROR, "Parse error: "@ + message),
            ),
        ),
        Ok(request) => match request.method {
            None => None,
            Some(method) => if request.id is None || text::begins(method, NOTIFICATIONS@) {
                None
            } else {
                Some(handled(method, request.id, request.params))
            },
        },
    }
}

/// Decides what becomes of a line that was read.
pub fn serve_line(parsed: Result<JsonRpcRequest, String>) -> (r: Option<Handling>)
    ensures
        r.deep_view() == served(
            match parsed {
                Ok(request) => Ok(request.deep_view()),
                Err(message) => Err(message@),
            },
        ),
{
    match parsed {
        Err(message) => Some(
            Handling::Reply(
                JsonRpcResponse::failure(
                    Json::Null,
                    PARSE_ERROR,
                    "Parse error: ".to_owned().concat(message.as_str()),
                ),
            ),
        ),
        Ok(request) => match request.method {
            None => None,
            Some(method) => if request.id.is_none() || text::starts_with(
                method.as_str(),
                NOTIFICATIONS,
            ) {
                None
            } else {
                Some(handle_request(method.as_str(), request.id, request.params))
            },
        },
    }
}

impl ResponseView {
    /// A response answers a request: it carries its identifier, and either a result or an error.
    pub open spec fn answers(self, id: JsonView) -> bool {
        &&& self.jsonrpc == JSONRPC@
        &&& self.id == id
        &&& self.result is Some <==> self.error is None
    }
}

/// A request with an identifier and a method that is no notification gets exactly one answer,
/// whatever the tool comes to: under its identifier, with either a result or an error.
pub proof fn lemma_request_answered(
    request: RequestView,
    method: Seq<char>,
    id: JsonView,
    outcome: Result<Seq<char>, Seq<char>>,
)
    requires
        request.method == Some(method),
        request.id == Some(id),
        !text::begins(method, NOTIFICATIONS@),
    ensures
        match served(Ok(request)) {
            Some(HandlingView::Reply(response)) => response.answers(id),
            Some(HandlingView::Call(_, pending)) => pending.answer(outcome).answers(id),
            None => false,
        },
{
}

/// Nothing else gets an answer but a line that is no request, which is answered with an error
/// under no identifier.
pub proof fn lemma_unanswered(parsed: Result<RequestView, Seq<char>>)
    ensures
        served(parsed) is None <==> match parsed {
            Ok(request) => match request.method {
                Some(method) => request.id is None || text::begins(method, NOTIFICATIONS@),
                None => true,
            },
            Err(_) => false,
        },
        parsed matches Err(message) ==> match served(parsed) {
            Some(HandlingView::Reply(response)) => {
                &&& response.answers(JsonView::Null)
                &&& response.error matches Some(error) && error.code == PARSE_ERROR
            },
            _ => false,
        },
{
}

/// A line of the input: its text, the request that was read from it or the reason why none was,
/// and what the tool comes to where it calls one.
pub struct LineView {
    pub text: Seq<char>,
    pub parsed: Result<RequestView, Seq<char>>,
    pub outcome: Result<JsonView, Seq<char>>,
}

impl LineView {
    /// The answer to a line: a line of blanks gets none.
    pub open spec fn answer(self) -> Option<ResponseView> {
        if !text::holds_text(self.text) {
            None
        } else {
            match served(self.parsed) {
                None => None,
                Some(HandlingView::Reply(response)) => Some(response),
                Some(HandlingView::Call(_, pending)) => Some(
                    pending.answer(printed(self.outcome)),
                ),
            }
        }
    }
}

/// The answers to an input, in the order of its lines.
pub open spec fn answers(lines: Seq<LineView>) -> Seq<ResponseView>
    decreases lines.len(),
{
    if lines.len() == 0 {
        seq![]
    } else {
        match lines.last().answer() {
            Some(response) => answers(lines.drop_last()).push(response),
            None => answers(lines.drop_last()),
        }
    }
}

/// An input is answered line by line: what comes later changes no earlier answer, and the
/// answers to a later part follow those to an earlier one.
pub proof fn lemma_answers_in_order(lines: Seq<LineView>, more: Seq<LineView>)
    ensures
        answers(lines + more) == answers(lines) + answers(more),
    decreases more.len(),
{
    if more.len() == 0 {
        assert(lines + more =~= lines);
        assert(answers(lines) + answers(more) =~= answers(lines));
    } else {
        assert((lines + more).drop_last() =~= lines + more.drop_last());
        lemma_answers_in_order(lines, more.drop_last());
        assert(answers(lines + more) =~= answers(lines) + answers(more));
    }
}

/// Each line gets its answer at its place, whatever the other lines are: a line that holds no
/// request is answered with an error and stops nothing, and a line without an answer leaves no
/// gap.
pub proof fn lemma_line_answered(lines: Seq<LineView>, i: int)
    requires
        0 <= i < lines.len(),
    ensures
        ({
            let before = answers(lines.take(i));
            let after = answers(lines.skip(i + 1));
            answers(lines) == match lines[i].answer() {
                Some(response) => before.push(response) + after,
                None => before + after,
            }
        }),
        text::holds_text(lines[i].text) && lines[i].parsed is Err ==> {
            &&& lines[i].answer() matches Some(response)
            &&& response.answers(JsonView::Null)
            &&& response.error matches Some(error)
            &&& error.code == PARSE_ERROR
            &&& error.message == "Parse error: "@ + lines[i].parsed->Err_0
        },
{
    assert(lines =~= lines.take(i + 1) + lines.skip(i + 1));
    lemma_answers_in_order(lines.take(i + 1), lines.skip(i + 1));
    assert(lines.take(i + 1).drop_last() =~= lines.take(i));
}

/// Every tool that is listed can be called by its name, with any arguments.
pub proof fn lemma_listed_tools_callable(i: int, args: JsonView)
    requires
        0 <= i < tools::tool_names().len(),
    ensures
        tool_call(tools::tool_names()[i], args) is Ok,
{
    assert(tools::tool_names().len() == 15);
}

/// Each name calls the tool of that name, with the arguments as they are given; `evaluate` is
/// another name of `eval`, and closing takes no arguments.
pub proof fn lemma_tools_by_name<J>(args: J)
    ensures
        tool_call("navigate"@, args) == Ok::<ToolCall<J>, Seq<char>>(ToolCall::Navigate(args)),
        tool_call("click"@, args) == Ok::<ToolCall<J>, Seq<char>>(ToolCall::Click(args)),
        tool_call("fill"@, args) == Ok::<ToolCall<J>, Seq<char>>(ToolCall::Fill(args)),
        tool_call("screenshot"@, args) == Ok::<ToolCall<J>, Seq<char>>(ToolCall::Screenshot(args)),
        tool_call("get_html"@, args) == Ok::<ToolCall<J>, Seq<char>>(ToolCall::GetHtml(args)),
        tool_call("get_text"@, args) == Ok::<ToolCall<J>, Seq<char>>(ToolCall::GetText(args)),
        tool_call("eval"@, args) == Ok::<ToolCall<J>, Seq<char>>(ToolCall::Evaluate(args)),
        tool_call("evaluate"@, args) == Ok::<ToolCall<J>, Seq<char>>(ToolCall::Evaluate(args)),
        tool_call("wait_for"@, args) == Ok::<ToolCall<J>, Seq<char>>(ToolCall::WaitFor(args)),
        tool_call("press"@, args) == Ok::<ToolCall<J>, Seq<char>>(ToolCall::Press(args)),
        tool_call("select"@, args) == Ok::<ToolCall<J>, Seq<char>>(ToolCall::Select(args)),
        tool_call("scroll"@, args) == Ok::<ToolCall<J>, Seq<char>>(ToolCall::Scroll(args)),
        tool_call("cookies"@, args) == Ok::<ToolCall<J>, Seq<char>>(ToolCall::Cookies(args)),
        tool_call("status"@, args) == Ok::<ToolCall<J>, Seq<char>>(ToolCall::Status(args)),
        tool_call("configure"@, args) == Ok::<ToolCall<J>, Seq<char>>(ToolCall::Configure(args)),
        tool_call("close"@, args) == Ok::<ToolCall<J>, Seq<char>>(ToolCall::<J>::Close),
{
    reveal_strlit("navigate");
    reveal_strlit("click");
    reveal_strlit("fill");
    reveal_strlit("screenshot");
    reveal_strlit("get_html");
    reveal_strlit("get_text");
    reveal_strlit("eval");
    reveal_strlit("evaluate");
    reveal_strlit("wait_for");
    reveal_strlit("press");
    reveal_strlit("select");
    reveal_strlit("scroll");
    reveal_strlit("cookies");
    reveal_strlit("status");
    reveal_strlit("configure");
    reveal_strlit("close");
    assert("navigate"@.len() != "click"@.len());
    assert("navigate"@.len() != "fill"@.len());
    assert("click"@.len() != "fill"@.len());
    assert("navigate"@.len() != "screenshot"@.len());
    assert("click"@.len() != "screenshot"@.len());
    assert("fill"@.len() != "screenshot"@.len());
    assert("navigate"@[0] != "get_html"@[0]);
    assert("click"@.len() != "get_html"@.len());
    assert("fill"@.len() != "get_html"@.len());
    assert("screenshot"@.len() != "get_html"@.len());
    assert("navigate"@[0] != "get_text"@[0]);
    assert("click"@.len() != "get_text"@.len());
    assert("fill"@.len() != "get_text"@.len());
    assert("screenshot"@.len() != "get_text"@.len());
    assert("get_html"@[4] != "get_text"@[4]);
    assert("navigate"@.len() != "eval"@.len());
    assert("click"@.len() != "eval"@.len());
    assert("fill"@[0] != "eval"@[0]);
    assert("screenshot"@.len() != "eval"@.len());
    assert("get_html"@.len() != "eval"@.len());
    assert("get_text"@.len() != "eval"@.len());
    assert("navigate"@[0] != "evaluate"@[0]);
    assert("click"@.len() != "evaluate"@.len());
    assert("fill"@.len() != "evaluate"@.len());
    assert("screenshot"@.len() != "evaluate"@.len());
    assert("get_html"@[0] != "evaluate"@[0]);
    assert("get_text"@[0] != "evaluate"@[0]);
    assert("eval"@.len() != "evaluate"@.len());
    assert("navigate"@[0] != "wait_for"@[0]);
    assert("click"@.len() != "wait_for"@.len());
    assert("fill"@.len() != "wait_for"@.len());
    assert("screenshot"@.len() != "wait_for"@.len());
    assert("get_html"@[0] != "wait_for"@[0]);
    assert("get_text"@[0] != "wait_for"@[0]);
    assert("eval"@.len() != "wait_for"@.len());
    assert("evaluate"@[0] != "wait_for"@[0]);
    assert("navigate"@.len() != "press"@.len());
    assert("click"@[0] != "press"@[0]);
    assert("fill"@.len() != "press"@.len());
    assert("screenshot"@.len() != "press"@.len());
    assert("get_html"@.len() != "press"@.len());
    assert("get_text"@.len() != "press"@.len());
    assert("eval"@.len() != "press"@.len());
    assert("evaluate"@.len() != "press"@.len());
    assert("wait_for"@.len() != "press"@.len());
    assert("navigate"@.len() != "select"@.len());
    assert("click"@.len() != "select"@.len());
    assert("fill"@.len() != "select"@.len());
    assert("screenshot"@.len() != "select"@.len());
    assert("get_html"@.len() != "select"@.len());
    assert("get_text"@.len() != "select"@.len());
    assert("eval"@.len() != "select"@.len());
    assert("evaluate"@.len() != "select"@.len());
    assert("wait_for"@.len() != "select"@.len());
    assert("press"@.len() != "select"@.len());
    assert("navigate"@.len() != "scroll"@.len());
    assert("click"@.len() != "scroll"@.len());
    assert("fill"@.len() != "scroll"@.len());
    assert("screenshot"@.len() != "scroll"@.len());
    assert("get_html"@.len() != "scroll"@.len());
    assert("get_text"@.len() != "scroll"@.len());
    assert("eval"@.len() != "scroll"@.len());
    assert("evaluate"@.len() != "scroll"@.len());
    assert("wait_for"@.len() != "scroll"@.len());
    assert("press"@.len() != "scroll"@.len());
    assert("select"@[1] != "scroll"@[1]);
    assert("navigate"@.len() != "cookies"@.len());
    assert("click"@.len() != "cookies"@.len());
    assert("fill"@.len() != "cookies"@.len());
    assert("screenshot"@.len() != "cookies"@.len());
    assert("get_html"@.len() != "cookies"@.len());
    assert("get_text"@.len() != "cookies"@.len());
    assert("eval"@.len() != "cookies"@.len());
    assert("evaluate"@.len() != "cookies"@.len());
    assert("wait_for"@.len() != "cookies"@.len());
    assert("press"@.len() != "cookies"@.len());
    assert("select"@.len() != "cookies"@.len());
    assert("scroll"@.len() != "cookies"@.len());
    assert("navigate"@.len() != "status"@.len());
    assert("click"@.len() != "status"@.len());
    assert("fill"@.len() != "status"@.len());
    assert("screenshot"@.len() != "status"@.len());
    assert("get_html"@.len() != "status"@.len());
    assert("get_text"@.len() != "status"@.len());
    assert("eval"@.len() != "status"@.len());
    assert("evaluate"@.len() != "status"@.len());
    assert("wait_for"@.len() != "status"@.len());
    assert("press"@.len() != "status"@.len());
    assert("select"@[1] != "status"@[1]);
    assert("scroll"@[1] != "status"@[1]);
    assert("cookies"@.len() != "status"@.len());
    assert("navigate"@.len() != "configure"@.len());
    assert("click"@.len() != "configure"@.len());
    assert("fill"@.len() != "configure"@.len());
    assert("screenshot"@.len() != "configure"@.len());
    assert("get_html"@.len() != "configure"@.len());
    assert("get_text"@.len() != "configure"@.len());
    assert("eval"@.len() != "configure"@.len());
    assert("evaluate"@.len() != "configure"@.len());
    assert("wait_for"@.len() != "configure"@.len());
    assert("press"@.len() != "configure"@.len());
    assert("select"@.len() != "configure"@.len());
    assert("scroll"@.len() != "configure"@.len());
    assert("cookies"@.len() != "configure"@.len());
    assert("status"@.len() != "configure"@.len());
    assert("navigate"@.len() != "close"@.len());
    assert("click"@[2] != "close"@[2]);
    assert("fill"@.len() != "close"@.len());
    assert("screenshot"@.len() != "close"@.len());
    assert("get_html"@.len() != "close"@.len());
    assert("get_text"@.len() != "close"@.len());
    assert("eval"@.len() != "close"@.len());
    assert("evaluate"@.len() != "close"@.len());
    assert("wait_for"@.len() != "close"@.len());
    assert("press"@[0] != "close"@[0]);
    assert("select"@.len() != "close"@.len());
    assert("scroll"@.len() != "close"@.len());
    assert("cookies"@.len() != "close"@.len());
    assert("status"@.len() != "close"@.len());
    assert("configure"@.len() != "close"@.len());
}

/// Any other name calls no tool, and the message tells it.
pub proof fn lemma_no_other_tools<J>(name: Seq<char>, args: J)
    requires
        name != "navigate"@,
        name != "click"@,
        name != "fill"@,
        name != "screenshot"@,
        name != "get_html"@,
        name != "get_text"@,
        name != "eval"@,
        name != "evaluate"@,
        name != "wait_for"@,
        name != "press"@,
        name != "select"@,
        name != "scroll"@,
        name != "cookies"@,
        name != "status"@,
        name != "configure"@,
        name != "close"@,
    ensures
        tool_call(name, args) == Err::<ToolCall<J>, Seq<char>>("Unknown tool: "@ + name),
{
}

/// Different listed names never call the same tool.
pub proof fn lemma_tools_told_apart(i: int, j: int, args: JsonView)
    requires
        0 <= i < tools::tool_names().len(),
        0 <= j < tools::tool_names().len(),
        i != j,
    ensures
        tool_call(tools::tool_names()[i], args) != tool_call(tools::tool_names()[j], args),
{
    lemma_tools_by_name(args);
}

/// The names under which the tools are listed, in order.
pub proof fn lemma_listed_names()
    ensures
        tools::tool_names() =~= seq![
            "navigate"@,
            "click"@,
            "fill"@,
            "screenshot"@,
            "get_html"@,
            "get_text"@,
            "eval"@,
            "wait_for"@,
            "press"@,
            "select"@,
            "scroll"@,
            "cookies"@,
            "status"@,
            "configure"@,
            "close"@,
        ],
{
}

/// What is answered to each method: the introduction, the list of all tools, the outcome of the
/// tool that is called, and an error for any other. The answers are of version 2.0 and carry the
/// identifier.
pub proof fn lemma_methods(
    method: Seq<char>,
    id: JsonView,
    params: JsonView,
    args: JsonView,
    name: Seq<char>,
    call: ToolCall<JsonView>,
)
    ensures
        handled("initialize"@, Some(id), Some(params)) matches HandlingView::Reply(response)
            && response.jsonrpc == "2.0"@ && response.id == id && response.error is None && (
        response.result matches Some(JsonView::Object(fields)) && fields =~= seq![
            ("protocolVersion"@, JsonView::Text("2024-11-05"@)),
            ("capabilities"@, JsonView::Object(seq![("tools"@, JsonView::Object(seq![]))])),
            (
                "serverInfo"@,
                JsonView::Object(
                    seq![
                        ("name"@, JsonView::Text("browser-mcp"@)),
                        ("version"@, JsonView::Text("2.0.0"@)),
                    ],
                ),
            ),
        ]),
        handled("tools/list"@, Some(id), Some(params)) matches HandlingView::Reply(response)
            && response.jsonrpc == "2.0"@ && response.id == id && response.error is None && (
        response.result matches Some(JsonView::Object(fields)) && fields =~= seq![
            ("tools"@, JsonView::Array(tools::tool_definitions())),
        ]),
        params.get("name"@) == Some(JsonView::Text(name)) && params.get("arguments"@) == Some(args)
            && tool_call(name, args) == Ok::<ToolCall<JsonView>, Seq<char>>(call) ==> handled(
            "tools/call"@,
            Some(id),
            Some(params),
        ) == HandlingView::Call(call, PendingCall { id }),
        params.get("name"@) == Some(JsonView::Text(name)) && params.get("arguments"@) is None
            && tool_call(name, JsonView::Object(seq![])) == Ok::<ToolCall<JsonView>, Seq<char>>(
            call,
        ) ==> handled("tools/call"@, Some(id), Some(params)) == HandlingView::Call(
            call,
            PendingCall { id },
        ),
        method != "initialize"@ && method != "tools/list"@ && method != "tools/call"@ ==> (handled(
            method,
            Some(id),
            Some(params),
        ) matches HandlingView::Reply(response) && response.jsonrpc == "2.0"@ && response.id == id
            && response.result is None && (response.error matches Some(error) && error.code
            == -32601 && error.message == "Method not found: "@ + method && error.data is None)),
{
    reveal_strlit("initialize");
    reveal_strlit("tools/list");
    reveal_strlit("tools/call");
    assert("tools/call"@[0] != "initialize"@[0]);
    assert("tools/list"@[0] != "initialize"@[0]);
    assert("tools/call"@[6] != "tools/list"@[6]);
}

/// The text of a result is its indented JSON, and a message stays as it is.
pub proof fn lemma_printed(value: JsonView, message: Seq<char>)
    ensures
        printed(Ok(value)) == Ok::<Seq<char>, Seq<char>>(json::pretty_text(value)),
        printed(Err(message)) == Err::<Seq<char>, Seq<char>>(message),
{
}

/// What a tool came to is answered under the identifier of the request: its text as the one item
/// of its content, or its message as an error of a tool.
pub proof fn lemma_tool_answers(id: JsonView, text: Seq<char>, message: Seq<char>)
    ensures
        ({
            let done = PendingCall { id }.answer(Ok(text));
            let failed = PendingCall { id }.answer(Err(message));
            &&& done.jsonrpc == "2.0"@
            &&& done.id == id
            &&& done.error is None
            &&& done.result matches Some(JsonView::Object(fields))
            &&& fields.len() == 1
            &&& fields[0].0 == "content"@
            &&& fields[0].1 matches JsonView::Array(items)
            &&& items.len() == 1
            &&& items[0] matches JsonView::Object(item)
            &&& item =~= seq![
                ("type"@, JsonView::Text("text"@)),
                ("text"@, JsonView::Text(text)),
            ]
            &&& failed.jsonrpc == "2.0"@
            &&& failed.id == id
            &&& failed.result is None
            &&& failed.error matches Some(error)
            &&& error.code == -32000
            &&& error.message == message
            &&& error.data is None
        }),
{
}

/// What becomes of a line that was read: an answer to what is no request, nothing for a request
/// without a method or without an identifier and for a notification, and else what becomes of the
/// method.
pub proof fn lemma_lines(request: RequestView, method: Seq<char>, id: JsonView, m: Seq<char>)
    ensures
        served(Err(m)) matches Some(HandlingView::Reply(response)) && response.jsonrpc == "2.0"@
            && response.id is Null && response.result is None && (response.error matches Some(error)
            && error.code == -32700 && error.message == "Parse error: "@ + m),
        request.method is None ==> served(Ok(request)) is None,
        request.id is None ==> served(Ok(request)) is None,
        request.method == Some("notifications/"@ + method) ==> served(Ok(request)) is None,
        request.method == Some(method) && request.id == Some(id) && !text::begins(
            method,
            "notifications/"@,
        ) ==> served(Ok(request)) == Some(handled(method, Some(id), request.params)),
{
    assert(("notifications/"@ + method).subrange(0, "notifications/"@.len() as int)
        =~= "notifications/"@);
}

/// A tool that is called under a name that is not known fails with that name, under the
/// identifier of the request.
pub proof fn lemma_unknown_tool(name: Seq<char>, id: JsonView, params: JsonView)
    requires
        params.str_or("name"@, ""@) == name,
        tool_call(name, call_arguments(params)) is Err,
    ensures
        handled("tools/call"@, Some(id), Some(params)) == HandlingView::Reply(
            ResponseView::failure(id, TOOL_ERROR, "Unknown tool: "@ + name),
        ),
{
    reveal_strlit("initialize");
    reveal_strlit("tools/list");
    reveal_strlit("tools/call");
    assert("tools/call"@[0] != "initialize"@[0]);
    assert("tools/call"@[6] != "tools/list"@[6]);
}

} // verus!
