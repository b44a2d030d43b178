//! The tools that the server offers, as they are described to clients.

use vstd::prelude::*;

use crate::json;
use crate::json::{no_fields, no_items, push_field, push_item, Json, JsonView};
use crate::text;

verus! {

/// One argument of a tool, by its name.
pub open spec fn property(
    name: Seq<char>,
    kind: Seq<char>,
    description: Seq<char>,
    default: Option<JsonView>,
) -> (Seq<char>, JsonView) {
    let fields: Seq<(Seq<char>, JsonView)> = seq![
        ("type"@, JsonView::Text(kind)),
        ("description"@, JsonView::Text(description)),
    ];
    (
        name,
        JsonView::Object(
            match default {
                Some(value) => fields.push(("default"@, value)),
                None => fields,
            },
        ),
    )
}

/// Adds one argument of a tool.
fn push_property(
    properties: &mut Vec<(String, Json)>,
    name: &str,
    kind: &str,
    description: &str,
    default: Option<Json>,
)
    ensures
        json::members(final(properties)@) == json::members(old(properties)@).push(
            property(name@, kind@, description@, default.deep_view()),
        ),
{
    let mut fields: Vec<(String, Json)> = no_fields();
    push_field(&mut fields, "type", Json::text(kind));
    push_field(&mut fields, "description", Json::text(description));
    if let Some(value) = default {
        push_field(&mut fields, "default", value);
    }
    assert(json::members(fields@) =~= property(
        name@,
        kind@,
        description@,
        default.deep_view(),
    ).1->Object_0);
    push_field(properties, name, Json::object(fields));
}

/// A list of names as a value.
pub open spec fn name_list(names: Seq<Seq<char>>) -> Seq<JsonView> {
    names.map_values(|name: Seq<char>| JsonView::Text(name))
}

/// A tool: its name, what it does, and the arguments it takes. Where no argument is required
/// the schema does not speak of required ones.
pub open spec fn tool(
    name: Seq<char>,
    description: Seq<char>,
    properties: Seq<(Seq<char>, JsonView)>,
    required: Seq<Seq<char>>,
) -> JsonView {
    let schema: Seq<(Seq<char>, JsonView)> = seq![
        ("type"@, JsonView::Text("object"@)),
        ("properties"@, JsonView::Object(properties)),
    ];
    JsonView::Object(
        seq![
            ("name"@, JsonView::Text(name)),
            ("description"@, JsonView::Text(description)),
            (
                "inputSchema"@,
                JsonView::Object(
                    if required.len() > 0 {
                        schema.push(("required"@, JsonView::Array(name_list(required))))
                    } else {
                        schema
                    },
                ),
            ),
        ],
    )
}

/// Puts a tool together.
fn describe_tool(
    name: &str,
    description: &str,
    properties: Vec<(String, Json)>,
    required: Vec<&str>,
) -> (r: Json)
    ensures
        r.deep_view() == tool(
            name@,
            description@,
            json::members(properties@),
            required@.map_values(|s: &str| s@),
        ),
{
    let ghost names: Seq<Seq<char>> = required@.map_values(|s: &str| s@);
    let mut schema: Vec<(String, Json)> = no_fields();
    push_field(&mut schema, "type", Json::text("object"));
    push_field(&mut schema, "properties", Json::object(properties));
    if required.len() > 0 {
        let mut items: Vec<Json> = no_items();
        let mut i: usize = 0;
        while i < required.len()
            invariant
                i <= required@.len(),
                names == required@.map_values(|s: &str| s@),
                items.deep_view() == name_list(names.take(i as int)),
            decreases required@.len() - i,
        {
            push_item(&mut items, Json::text(required[i]));
            i = i + 1;
            assert(items.deep_view() =~= name_list(names.take(i as int)));
        }
        assert(names.take(i as int) =~= names);
        push_field(&mut schema, "required", Json::array(items));
    }
    let ghost whole: JsonView = tool(name@, description@, json::members(properties@), names);
    assert(json::members(schema@) =~= whole->Object_0[2].1->Object_0);
    let mut fields: Vec<(String, Json)> = no_fields();
    push_field(&mut fields, "name", Json::text(name));
    push_field(&mut fields, "description", Json::text(description));
    push_field(&mut fields, "inputSchema", Json::object(schema));
    assert(json::members(fields@) =~= whole->Object_0);
    Json::object(fields)
}

/// The arguments of the tool `navigate`.
pub open spec fn navigate_properties() -> Seq<(Seq<char>, JsonView)> {
    seq![
        property("url"@, "string"@, "URL to navigate to"@, None),
        property(
            "wait_until"@,
            "string"@,
            "Wait condition: load, networkidle"@,
            Some(JsonView::Text("load"@)),
        ),
    ]
}

/// The tool `navigate`.
pub open spec fn navigate_tool() -> JsonView {
    tool(
        "navigate"@,
        "Navigate browser to URL with auto-wait"@,
        navigate_properties(),
        seq!["url"@],
    )
}

fn describe_navigate() -> (r: Json)
    ensures
        r.deep_view() == navigate_tool(),
{
    let mut properties: Vec<(String, Json)> = no_fields();
    push_property(&mut properties, "url", "string", "URL to navigate to", None);
    push_property(
        &mut properties,
        "wait_until",
        "string",
        "Wait condition: load, networkidle",
        Some(Json::text("load")),
    );
    let required: Vec<&str> = vec!["url"];
    assert(json::members(properties@) =~= navigate_properties());
    assert(required@.map_values(|s: &str| s@) =~= seq!["url"@]);
    describe_tool("navigate", "Navigate browser to URL with auto-wait", properties, required)
}

/// The arguments of the tool `click`.
pub open spec fn click_properties() -> Seq<(Seq<char>, JsonView)> {
    seq![
        property("selector"@, "string"@, "CSS selector"@, None),
        property(
            "timeout_ms"@,
            "integer"@,
            "Timeout in ms"@,
            Some(JsonView::Number(text::decimal(10000))),
        ),
    ]
}

/// The tool `click`.
pub open spec fn click_tool() -> JsonView {
    tool("click"@, "Click element by selector with retry"@, click_properties(), seq!["selector"@])
}

fn describe_click() -> (r: Json)
    ensures
        r.deep_view() == click_tool(),
{
    let mut properties: Vec<(String, Json)> = no_fields();
    push_property(&mut properties, "selector", "string", "CSS selector", None);
    push_property(
        &mut properties,
        "timeout_ms",
        "integer",
        "Timeout in ms",
        Some(Json::number(10000)),
    );
    let required: Vec<&str> = vec!["selector"];
    assert(json::members(properties@) =~= click_properties());
    assert(required@.map_values(|s: &str| s@) =~= seq!["selector"@]);
    describe_tool("click", "Click element by selector with retry", properties, required)
}

/// The arguments of the tool `fill`.
pub open spec fn fill_properties() -> Seq<(Seq<char>, JsonView)> {
    seq![
        property("selector"@, "string"@, "CSS selector"@, None),
        property("value"@, "string"@, "Text to type"@, None),
        property("clear"@, "boolean"@, "Clear field first"@, Some(JsonView::Bool(true))),
    ]
}

/// The tool `fill`.
pub open spec fn fill_tool() -> JsonView {
    tool("fill"@, "Type text into input field"@, fill_properties(), seq!["selector"@, "value"@])
}

fn describe_fill() -> (r: Json)
    ensures
        r.deep_view() == fill_tool(),
{
    let mut properties: Vec<(String, Json)> = no_fields();
    push_property(&mut properties, "selector", "string", "CSS selector", None);
    push_property(&mut properties, "value", "string", "Text to type", None);
    push_property(&mut properties, "clear", "boolean", "Clear field first", Some(Json::Bool(true)));
    let required: Vec<&str> = vec!["selector", "value"];
    assert(json::members(properties@) =~= fill_properties());
    assert(required@.map_values(|s: &str| s@) =~= seq!["selector"@, "value"@]);
    describe_tool("fill", "Type text into input field", properties, required)
}

/// The arguments of the tool `screenshot`.
pub open spec fn screenshot_properties() -> Seq<(Seq<char>, JsonView)> {
    seq![
        property("path"@, "string"@, "Save path (optional)"@, None),
        property("full_page"@, "boolean"@, "Full page capture"@, Some(JsonView::Bool(false))),
        property(
            "quality"@,
            "integer"@,
            "JPEG quality 1-100"@,
            Some(JsonView::Number(text::decimal(80))),
        ),
    ]
}

/// The tool `screenshot`.
pub open spec fn screenshot_tool() -> JsonView {
    tool(
        "screenshot"@,
        "Take screenshot, returns base64 or saves to path"@,
        screenshot_properties(),
        seq![],
    )
}

fn describe_screenshot() -> (r: Json)
    ensures
        r.deep_view() == screenshot_tool(),
{
    let mut properties: Vec<(String, Json)> = no_fields();
    push_property(&mut properties, "path", "string", "Save path (optional)", None);
    push_property(
        &mut properties,
        "full_page",
        "boolean",
        "Full page capture",
        Some(Json::Bool(false)),
    );
    push_property(
        &mut properties,
        "quality",
        "integer",
        "JPEG quality 1-100",
        Some(Json::number(80)),
    );
    let required: Vec<&str> = Vec::new();
    assert(json::members(properties@) =~= screenshot_properties());
    assert(required@.map_values(|s: &str| s@) =~= Seq::<Seq<char>>::empty());
    describe_tool(
        "screenshot",
        "Take screenshot, returns base64 or saves to path",
        properties,
        required,
    )
}

/// The arguments of the tool `get_html`.
pub open spec fn get_html_properties() -> Seq<(Seq<char>, JsonView)> {
    seq![
        property("selector"@, "string"@, "CSS selector (optional, full page if omitted)"@, None),
    ]
}

/// The tool `get_html`.
pub open spec fn get_html_tool() -> JsonView {
    tool("get_html"@, "Get page HTML content"@, get_html_properties(), seq![])
}

fn describe_get_html() -> (r: Json)
    ensures
        r.deep_view() == get_html_tool(),
{
    let mut properties: Vec<(String, Json)> = no_fields();
    push_property(
        &mut properties,
        "selector",
        "string",
        "CSS selector (optional, full page if omitted)",
        None,
    );
    let required: Vec<&str> = Vec::new();
    assert(json::members(properties@) =~= get_html_properties());
    assert(required@.map_values(|s: &str| s@) =~= Seq::<Seq<char>>::empty());
    describe_tool("get_html", "Get page HTML content", properties, required)
}

/// The arguments of the tool `get_text`.
pub open spec fn get_text_properties() -> Seq<(Seq<char>, JsonView)> {
    seq![
        property("selector"@, "string"@, "CSS selector"@, None),
    ]
}

/// The tool `get_text`.
pub open spec fn get_text_tool() -> JsonView {
    tool("get_text"@, "Get text content of element"@, get_text_properties(), seq!["selector"@])
}

fn describe_get_text() -> (r: Json)
    ensures
        r.deep_view() == get_text_tool(),
{
    let mut properties: Vec<(String, Json)> = no_fields();
    push_property(&mut properties, "selector", "string", "CSS selector", None);
    let required: Vec<&str> = vec!["selector"];
    assert(json::members(properties@) =~= get_text_properties());
    assert(required@.map_values(|s: &str| s@) =~= seq!["selector"@]);
    describe_tool("get_text", "Get text content of element", properties, required)
}

/// The arguments of the tool `eval`.
pub open spec fn eval_properties() -> Seq<(Seq<char>, JsonView)> {
    seq![
        property("script"@, "string"@, "JavaScript code"@, None),
    ]
}

/// The tool `eval`.
pub open spec fn eval_tool() -> JsonView {
    tool("eval"@, "Execute JavaScript in page context"@, eval_properties(), seq!["script"@])
}

fn describe_eval() -> (r: Json)
    ensures
        r.deep_view() == eval_tool(),
{
    let mut properties: Vec<(String, Json)> = no_fields();
    push_property(&mut properties, "script", "string", "JavaScript code", None);
    let required: Vec<&str> = vec!["script"];
    assert(json::members(properties@) =~= eval_properties());
    assert(required@.map_values(|s: &str| s@) =~= seq!["script"@]);
    describe_tool("eval", "Execute JavaScript in page context", properties, required)
}

/// The arguments of the tool `wait_for`.
pub open spec fn wait_for_properties() -> Seq<(Seq<char>, JsonView)> {
    seq![
        property("selector"@, "string"@, "CSS selector"@, None),
        property(
            "state"@,
            "string"@,
            "visible, hidden, attached"@,
            Some(JsonView::Text("visible"@)),
        ),
        property(
            "timeout_ms"@,
            "integer"@,
            "Timeout in ms"@,
            Some(JsonView::Number(text::decimal(10000))),
        ),
    ]
}

/// The tool `wait_for`.
pub open spec fn wait_for_tool() -> JsonView {
    tool("wait_for"@, "Wait for element to appear"@, wait_for_properties(), seq!["selector"@])
}

fn describe_wait_for() -> (r: Json)
    ensures
        r.deep_view() == wait_for_tool(),
{
    let mut properties: Vec<(String, Json)> = no_fields();
    push_property(&mut properties, "selector", "string", "CSS selector", None);
    push_property(
        &mut properties,
        "state",
        "string",
        "visible, hidden, attached",
        Some(Json::text("visible")),
    );
    push_property(
        &mut properties,
        "timeout_ms",
        "integer",
        "Timeout in ms",
        Some(Json::number(10000)),
    );
    let required: Vec<&str> = vec!["selector"];
    assert(json::members(properties@) =~= wait_for_properties());
    assert(required@.map_values(|s: &str| s@) =~= seq!["selector"@]);
    describe_tool("wait_for", "Wait for element to appear", properties, required)
}

/// The arguments of the tool `press`.
pub open spec fn press_properties() -> Seq<(Seq<char>, JsonView)> {
    seq![
        property("key"@, "string"@, "Key name: Enter, Tab, Escape, etc"@, None),
    ]
}

/// The tool `press`.
pub open spec fn press_tool() -> JsonView {
    tool("press"@, "Press keyboard key"@, press_properties(), seq!["key"@])
}

fn describe_press() -> (r: Json)
    ensures
        r.deep_view() == press_tool(),
{
    let mut properties: Vec<(String, Json)> = no_fields();
    push_property(&mut properties, "key", "string", "Key name: Enter, Tab, Escape, etc", None);
    let required: Vec<&str> = vec!["key"];
    assert(json::members(properties@) =~= press_properties());
    assert(required@.map_values(|s: &str| s@) =~= seq!["key"@]);
    describe_tool("press", "Press keyboard key", properties, required)
}

/// The arguments of the tool `select`.
pub open spec fn select_properties() -> Seq<(Seq<char>, JsonView)> {
    seq![
        property("selector"@, "string"@, "CSS selector"@, None),
        property("value"@, "string"@, "Option value"@, None),
    ]
}

/// The tool `select`.
pub open spec fn select_tool() -> JsonView {
    tool("select"@, "Select dropdown option"@, select_properties(), seq!["selector"@, "value"@])
}

fn describe_select() -> (r: Json)
    ensures
        r.deep_view() == select_tool(),
{
    let mut properties: Vec<(String, Json)> = no_fields();
    push_property(&mut properties, "selector", "string", "CSS selector", None);
    push_property(&mut properties, "value", "string", "Option value", None);
    let required: Vec<&str> = vec!["selector", "value"];
    assert(json::members(properties@) =~= select_properties());
    assert(required@.map_values(|s: &str| s@) =~= seq!["selector"@, "value"@]);
    describe_tool("select", "Select dropdown option", properties, required)
}

/// The arguments of the tool `scroll`.
pub open spec fn scroll_properties() -> Seq<(Seq<char>, JsonView)> {
    seq![
        property("direction"@, "string"@, "up, down, left, right"@, Some(JsonView::Text("down"@))),
        property(
            "amount"@,
            "integer"@,
            "Pixels to scroll"@,
            Some(JsonView::Number(text::decimal(500))),
        ),
        property("selector"@, "string"@, "Element to scroll (optional)"@, None),
    ]
}

/// The tool `scroll`.
pub open spec fn scroll_tool() -> JsonView {
    tool("scroll"@, "Scroll page or element"@, scroll_properties(), seq![])
}

fn describe_scroll() -> (r: Json)
    ensures
        r.deep_view() == scroll_tool(),
{
    let mut properties: Vec<(String, Json)> = no_fields();
    push_property(
        &mut properties,
        "direction",
        "string",
        "up, down, left, right",
        Some(Json::text("down")),
    );
    push_property(
        &mut properties,
        "amount",
        "integer",
        "Pixels to scroll",
        Some(Json::number(500)),
    );
    push_property(&mut properties, "selector", "string", "Element to scroll (optional)", None);
    let required: Vec<&str> = Vec::new();
    assert(json::members(properties@) =~= scroll_properties());
    assert(required@.map_values(|s: &str| s@) =~= Seq::<Seq<char>>::empty());
    describe_tool("scroll", "Scroll page or element", properties, required)
}

/// The arguments of the tool `cookies`.
pub open spec fn cookies_properties() -> Seq<(Seq<char>, JsonView)> {
    seq![
        property("action"@, "string"@, "get, set, clear"@, Some(JsonView::Text("get"@))),
        property("name"@, "string"@, "Cookie name (for set)"@, None),
        property("value"@, "string"@, "Cookie value (for set)"@, None),
        property("domain"@, "string"@, "Cookie domain (for set)"@, None),
    ]
}

/// The tool `cookies`.
pub open spec fn cookies_tool() -> JsonView {
    tool("cookies"@, "Manage cookies: get, set, clear"@, cookies_properties(), seq![])
}

fn describe_cookies() -> (r: Json)
    ensures
        r.deep_view() == cookies_tool(),
{
    let mut properties: Vec<(String, Json)> = no_fields();
    push_property(&mut properties, "action", "string", "get, set, clear", Some(Json::text("get")));
    push_property(&mut properties, "name", "string", "Cookie name (for set)", None);
    push_property(&mut properties, "value", "string", "Cookie value (for set)", None);
    push_property(&mut properties, "domain", "string", "Cookie domain (for set)", None);
    let required: Vec<&str> = Vec::new();
    assert(json::members(properties@) =~= cookies_properties());
    assert(required@.map_values(|s: &str| s@) =~= Seq::<Seq<char>>::empty());
    describe_tool("cookies", "Manage cookies: get, set, clear", properties, required)
}

/// The arguments of the tool `status`.
pub open spec fn status_properties() -> Seq<(Seq<char>, JsonView)> {
    seq![]
}

/// The tool `status`.
pub open spec fn status_tool() -> JsonView {
    tool("status"@, "Get browser status and current URL"@, status_properties(), seq![])
}

fn describe_status() -> (r: Json)
    ensures
        r.deep_view() == status_tool(),
{
    let properties: Vec<(String, Json)> = no_fields();
    let required: Vec<&str> = Vec::new();
    assert(json::members(properties@) =~= status_properties());
    assert(required@.map_values(|s: &str| s@) =~= Seq::<Seq<char>>::empty());
    describe_tool("status", "Get browser status and current URL", properties, required)
}

/// The arguments of the tool `configure`.
pub open spec fn configure_properties() -> Seq<(Seq<char>, JsonView)> {
    seq![
        property("auto_wait"@, "boolean"@, "Auto-wait for elements"@, None),
        property("timeout_ms"@, "integer"@, "Default timeout"@, None),
        property("headless"@, "boolean"@, "Headless mode"@, None),
    ]
}

/// The tool `configure`.
pub open spec fn configure_tool() -> JsonView {
    tool("configure"@, "Configure browser settings"@, configure_properties(), seq![])
}

fn describe_configure() -> (r: Json)
    ensures
        r.deep_view() == configure_tool(),
{
    let mut properties: Vec<(String, Json)> = no_fields();
    push_property(&mut properties, "auto_wait", "boolean", "Auto-wait for elements", None);
    push_property(&mut properties, "timeout_ms", "integer", "Default timeout", None);
    push_property(&mut properties, "headless", "boolean", "Headless mode", None);
    let required: Vec<&str> = Vec::new();
    assert(json::members(properties@) =~= configure_properties());
    assert(required@.map_values(|s: &str| s@) =~= Seq::<Seq<char>>::empty());
    describe_tool("configure", "Configure browser settings", properties, required)
}

/// The arguments of the tool `close`.
pub open spec fn close_properties() -> Seq<(Seq<char>, JsonView)> {
    seq![]
}

/// The tool `close`.
pub open spec fn close_tool() -> JsonView {
    tool("close"@, "Close browser and cleanup"@, close_properties(), seq![])
}

fn describe_close() -> (r: Json)
    ensures
        r.deep_view() == close_tool(),
{
    let properties: Vec<(String, Json)> = no_fields();
    let required: Vec<&str> = Vec::new();
    assert(json::members(properties@) =~= close_properties());
    assert(required@.map_values(|s: &str| s@) =~= Seq::<Seq<char>>::empty());
    describe_tool("close", "Close browser and cleanup", properties, required)
}

/// All tools, in the order in which they are listed.
pub open spec fn tool_definitions() -> Seq<JsonView> {
    seq![
        navigate_tool(),
        click_tool(),
        fill_tool(),
        screenshot_tool(),
        get_html_tool(),
        get_text_tool(),
        eval_tool(),
        wait_for_tool(),
        press_tool(),
        select_tool(),
        scroll_tool(),
        cookies_tool(),
        status_tool(),
        configure_tool(),
        close_tool(),
    ]
}

/// Describes all tools.
pub fn get_tool_definitions() -> (r: Vec<Json>)
    ensures
        r.deep_view() == tool_definitions(),
{
    let mut tools: Vec<Json> = no_items();
    push_item(&mut tools, describe_navigate());
    push_item(&mut tools, describe_click());
    push_item(&mut tools, describe_fill());
    push_item(&mut tools, describe_screenshot());
    push_item(&mut tools, describe_get_html());
    push_item(&mut tools, describe_get_text());
    push_item(&mut tools, describe_eval());
    push_item(&mut tools, describe_wait_for());
    push_item(&mut tools, describe_press());
    push_item(&mut tools, describe_select());
    push_item(&mut tools, describe_scroll());
    push_item(&mut tools, describe_cookies());
    push_item(&mut tools, describe_status());
    push_item(&mut tools, describe_configure());
    push_item(&mut tools, describe_close());
    assert(tools.deep_view() =~= tool_definitions());
    tools
}

/// What a definition lists as the default of an argument.
pub open spec fn listed_default(definition: JsonView, name: Seq<char>) -> Option<JsonView> {
    match definition.get("inputSchema"@) {
        Some(schema) => match schema.get("properties"@) {
            Some(properties) => match properties.get(name) {
                Some(described) => described.get("default"@),
                None => None,
            },
            None => None,
        },
        None => None,
    }
}

/// What a definition lists as the default of an argument.
pub fn default_argument<'a>(definition: &'a Json, name: &str) -> (r: Option<&'a Json>)
    ensures
        r.deep_view() == listed_default(definition.deep_view(), name@),
{
    match definition.get("inputSchema") {
        Some(schema) => match schema.get("properties") {
            Some(properties) => match properties.get(name) {
                Some(described) => described.get("default"),
                None => None,
            },
            None => None,
        },
        None => None,
    }
}

/// An argument of a call: as it is given, else as the definition of the tool lists its default.
pub fn argument<'a>(args: &'a Json, definition: &'a Json, name: &str) -> (r: Option<&'a Json>)
    ensures
        r.deep_view() == match args.deep_view().get(name@) {
            Some(given) => Some(given),
            None => listed_default(definition.deep_view(), name@),
        },
{
    match args.get(name) {
        Some(given) => Some(given),
        None => default_argument(definition, name),
    }
}

/// The default of an argument stands in its description, where the arguments of the schema are.
pub proof fn lemma_listed_default(
    definition: JsonView,
    schema: JsonView,
    properties: JsonView,
    described: JsonView,
    name: Seq<char>,
)
    ensures
        definition.get("inputSchema"@) == Some(schema) && schema.get("properties"@) == Some(
            properties,
        ) && properties.get(name) == Some(described) ==> listed_default(definition, name)
            == described.get("default"@),
        definition.get("inputSchema"@) == Some(schema) && schema.get("properties"@) == Some(
            properties,
        ) && properties.get(name) is None ==> listed_default(definition, name) is None,
{
}

/// The names of the tools, in the order in which they are listed.
pub open spec fn tool_names() -> Seq<Seq<char>> {
    seq![
        "navigate"@,
        "click"@,
        "fill"@,
        "screenshot"@,
        "get_html"@,
        "get_text"@,
        "eval"@,
        "wait_for"@,
        "press"@,
        "select"@,
        "scroll"@,
        "cookies"@,
        "status"@,
        "configure"@,
        "close"@,
    ]
}

/// The place of a name among the tools: length, first and last letter tell them apart.
spec fn place(name: Seq<char>) -> int {
    if name.len() == 8 && name[0] == 'n' && name.last() == 'e' {
        0
    } else if name.len() == 5 && name[0] == 'c' && name.last() == 'k' {
        1
    } else if name.len() == 4 && name[0] == 'f' && name.last() == 'l' {
        2
    } else if name.len() == 10 && name[0] == 's' && name.last() == 't' {
        3
    } else if name.len() == 8 && name[0] == 'g' && name.last() == 'l' {
        4
    } else if name.len() == 8 && name[0] == 'g' && name.last() == 't' {
        5
    } else if name.len() == 4 && name[0] == 'e' && name.last() == 'l' {
        6
    } else if name.len() == 8 && name[0] == 'w' && name.last() == 'r' {
        7
    } else if name.len() == 5 && name[0] == 'p' && name.last() == 's' {
        8
    } else if name.len() == 6 && name[0] == 's' && name.last() == 't' {
        9
    } else if name.len() == 6 && name[0] == 's' && name.last() == 'l' {
        10
    } else if name.len() == 7 && name[0] == 'c' && name.last() == 's' {
        11
    } else if name.len() == 6 && name[0] == 's' && name.last() == 's' {
        12
    } else if name.len() == 9 && name[0] == 'c' && name.last() == 'e' {
        13
    } else if name.len() == 5 && name[0] == 'c' && name.last() == 'e' {
        14
    } else {
        15
    }
}

proof fn lemma_places()
    ensures
        forall|i: int| 0 <= i < tool_names().len() ==> place(#[trigger] tool_names()[i]) == i,
{
    reveal_strlit("navigate");
    reveal_strlit("click");
    reveal_strlit("fill");
    reveal_strlit("screenshot");
    reveal_strlit("get_html");
    reveal_strlit("get_text");
    reveal_strlit("eval");
    reveal_strlit("wait_for");
    reveal_strlit("press");
    reveal_strlit("select");
    reveal_strlit("scroll");
    reveal_strlit("cookies");
    reveal_strlit("status");
    reveal_strlit("configure");
    reveal_strlit("close");
    assert(place(tool_names()[0]) == 0);
    assert(place(tool_names()[1]) == 1);
    assert(place(tool_names()[2]) == 2);
    assert(place(tool_names()[3]) == 3);
    assert(place(tool_names()[4]) == 4);
    assert(place(tool_names()[5]) == 5);
    assert(place(tool_names()[6]) == 6);
    assert(place(tool_names()[7]) == 7);
    assert(place(tool_names()[8]) == 8);
    assert(place(tool_names()[9]) == 9);
    assert(place(tool_names()[10]) == 10);
    assert(place(tool_names()[11]) == 11);
    assert(place(tool_names()[12]) == 12);
    assert(place(tool_names()[13]) == 13);
    assert(place(tool_names()[14]) == 14);
}

/// A member that stands in an object is found.
pub proof fn lemma_member_found(fields: Seq<(Seq<char>, JsonView)>, k: int)
    requires
        0 <= k < fields.len(),
    ensures
        json::find(fields, fields[k].0) is Some,
    decreases fields.len(),
{
    if fields[0].0 != fields[k].0 {
        assert(fields.drop_first()[k - 1] == fields[k]);
        lemma_member_found(fields.drop_first(), k - 1);
    }
}

proof fn lemma_tool_members(
    name: Seq<char>,
    description: Seq<char>,
    properties: Seq<(Seq<char>, JsonView)>,
    required: Seq<Seq<char>>,
)
    ensures
        ({
            let whole = tool(name, description, properties, required);
            let schema = whole->Object_0[2].1;
            &&& whole.get("name"@) == Some(JsonView::Text(name))
            &&& whole.get("inputSchema"@) == Some(schema)
            &&& schema.get("properties"@) == Some(JsonView::Object(properties))
            &&& schema.get("required"@) == if required.len() > 0 {
                Some(JsonView::Array(name_list(required)))
            } else {
                None
            }
        }),
{
    reveal_strlit("name");
    reveal_strlit("description");
    reveal_strlit("inputSchema");
    reveal_strlit("type");
    reveal_strlit("properties");
    reveal_strlit("required");
    reveal_with_fuel(json::find, 4);
    let fields = tool(name, description, properties, required)->Object_0;
    let schema = fields[2].1->Object_0;
    assert("name"@.len() != "inputSchema"@.len());
    assert("description"@[0] != "inputSchema"@[0]);
    assert("type"@.len() != "properties"@.len());
    assert("type"@.len() != "required"@.len());
    assert("properties"@.len() != "required"@.len());
    assert(fields.drop_first()[0] == fields[1]);
    assert(fields.drop_first().drop_first()[0] == fields[2]);
    assert(schema.drop_first()[0] == schema[1]);
    if required.len() > 0 {
        assert(schema.drop_first().drop_first()[0] == schema[2]);
    } else {
        assert(schema.drop_first().drop_first().len() == 0);
    }
}

/// Every argument that a tool requires is one that it describes.
pub open spec fn requires_known(definition: JsonView) -> bool {
    match definition.get("inputSchema"@) {
        Some(schema) => match schema.get("required"@) {
            Some(JsonView::Array(items)) => forall|k: int|
                0 <= k < items.len() ==> match #[trigger] items[k] {
                    JsonView::Text(name) => match schema.get("properties"@) {
                        Some(properties) => properties.get(name) is Some,
                        None => false,
                    },
                    _ => false,
                },
            Some(_) => false,
            None => true,
        },
        None => false,
    }
}

proof fn lemma_requires_known(
    name: Seq<char>,
    description: Seq<char>,
    properties: Seq<(Seq<char>, JsonView)>,
    required: Seq<Seq<char>>,
    places: Seq<int>,
)
    requires
        places.len() == required.len(),
        forall|k: int|
            0 <= k < required.len() ==> 0 <= #[trigger] places[k] < properties.len()
                && properties[places[k]].0 == required[k],
    ensures
        requires_known(tool(name, description, properties, required)),
        tool(name, description, properties, required).get("name"@) == Some(JsonView::Text(name)),
{
    lemma_tool_members(name, description, properties, required);
    let items = name_list(required);
    assert forall|k: int| 0 <= k < items.len() implies json::find(properties, required[k]) is Some
        && #[trigger] items[k] == JsonView::Text(required[k]) by {
        assert(0 <= places[k] < properties.len());
        lemma_member_found(properties, places[k]);
    }
}

proof fn lemma_navigate_tool()
    ensures
        requires_known(navigate_tool()),
        navigate_tool().get("name"@) == Some(JsonView::Text("navigate"@)),
{
    lemma_requires_known(
        "navigate"@,
        "Navigate browser to URL with auto-wait"@,
        navigate_properties(),
        seq!["url"@],
        seq![0int],
    );
}

proof fn lemma_click_tool()
    ensures
        requires_known(click_tool()),
        click_tool().get("name"@) == Some(JsonView::Text("click"@)),
{
    lemma_requires_known(
        "click"@,
        "Click element by selector with retry"@,
        click_properties(),
        seq!["selector"@],
        seq![0int],
    );
}

proof fn lemma_fill_tool()
    ensures
        requires_known(fill_tool()),
        fill_tool().get("name"@) == Some(JsonView::Text("fill"@)),
{
    lemma_requires_known(
        "fill"@,
        "Type text into input field"@,
        fill_properties(),
        seq!["selector"@, "value"@],
        seq![0int, 1int],
    );
}

proof fn lemma_screenshot_tool()
    ensures
        requires_known(screenshot_tool()),
        screenshot_tool().get("name"@) == Some(JsonView::Text("screenshot"@)),
{
    lemma_requires_known(
        "screenshot"@,
        "Take screenshot, returns base64 or saves to path"@,
        screenshot_properties(),
        seq![],
        seq![],
    );
}

proof fn lemma_get_html_tool()
    ensures
        requires_known(get_html_tool()),
        get_html_tool().get("name"@) == Some(JsonView::Text("get_html"@)),
{
    lemma_requires_known(
        "get_html"@,
        "Get page HTML content"@,
        get_html_properties(),
        seq![],
        seq![],
    );
}

proof fn lemma_get_text_tool()
    ensures
        requires_known(get_text_tool()),
        get_text_tool().get("name"@) == Some(JsonView::Text("get_text"@)),
{
    lemma_requires_known(
        "get_text"@,
        "Get text content of element"@,
        get_text_properties(),
        seq!["selector"@],
        seq![0int],
    );
}

proof fn lemma_eval_tool()
    ensures
        requires_known(eval_tool()),
        eval_tool().get("name"@) == Some(JsonView::Text("eval"@)),
{
    lemma_requires_known(
        "eval"@,
        "Execute JavaScript in page context"@,
        eval_properties(),
        seq!["script"@],
        seq![0int],
    );
}

proof fn lemma_wait_for_tool()
    ensures
        requires_known(wait_for_tool()),
        wait_for_tool().get("name"@) == Some(JsonView::Text("wait_for"@)),
{
    lemma_requires_known(
        "wait_for"@,
        "Wait for element to appear"@,
        wait_for_properties(),
        seq!["selector"@],
        seq![0int],
    );
}

proof fn lemma_press_tool()
    ensures
        requires_known(press_tool()),
        press_tool().get("name"@) == Some(JsonView::Text("press"@)),
{
    lemma_requires_known(
        "press"@,
        "Press keyboard key"@,
        press_properties(),
        seq!["key"@],
        seq![0int],
    );
}

proof fn lemma_select_tool()
    ensures
        requires_known(select_tool()),
        select_tool().get("name"@) == Some(JsonView::Text("select"@)),
{
    lemma_requires_known(
        "select"@,
        "Select dropdown option"@,
        select_properties(),
        seq!["selector"@, "value"@],
        seq![0int, 1int],
    );
}

proof fn lemma_scroll_tool()
    ensures
        requires_known(scroll_tool()),
        scroll_tool().get("name"@) == Some(JsonView::Text("scroll"@)),
{
    lemma_requires_known("scroll"@, "Scroll page or element"@, scroll_properties(), seq![], seq![]);
}

proof fn lemma_cookies_tool()
    ensures
        requires_known(cookies_tool()),
        cookies_tool().get("name"@) == Some(JsonView::Text("cookies"@)),
{
    lemma_requires_known(
        "cookies"@,
        "Manage cookies: get, set, clear"@,
        cookies_properties(),
        seq![],
        seq![],
    );
}

proof fn lemma_status_tool()
    ensures
        requires_known(status_tool()),
        status_tool().get("name"@) == Some(JsonView::Text("status"@)),
{
    lemma_requires_known(
        "status"@,
        "Get browser status and current URL"@,
        status_properties(),
        seq![],
        seq![],
    );
}

proof fn lemma_configure_tool()
    ensures
        requires_known(configure_tool()),
        configure_tool().get("name"@) == Some(JsonView::Text("configure"@)),
{
    lemma_requires_known(
        "configure"@,
        "Configure browser settings"@,
        configure_properties(),
        seq![],
        seq![],
    );
}

proof fn lemma_close_tool()
    ensures
        requires_known(close_tool()),
        close_tool().get("name"@) == Some(JsonView::Text("close"@)),
{
    lemma_requires_known(
        "close"@,
        "Close browser and cleanup"@,
        close_properties(),
        seq![],
        seq![],
    );
}

/// The tools are listed under names that are all different, and every argument that a tool
/// requires is one that it describes.
pub proof fn lemma_tool_definitions()
    ensures
        tool_names().no_duplicates(),
        tool_definitions().len() == tool_names().len(),
        forall|i: int|
            0 <= i < tool_definitions().len() ==> {
                &&& requires_known(#[trigger] tool_definitions()[i])
                &&& tool_definitions()[i].get("name"@) == Some(JsonView::Text(tool_names()[i]))
            },
{
    lemma_places();
    assert forall|i: int, j: int|
        0 <= i < tool_names().len() && 0 <= j < tool_names().len() && i
            != j implies tool_names()[i] != tool_names()[j] by {
        assert(place(tool_names()[i]) == i && place(tool_names()[j]) == j);
    }
    lemma_navigate_tool();
    lemma_click_tool();
    lemma_fill_tool();
    lemma_screenshot_tool();
    lemma_get_html_tool();
    lemma_get_text_tool();
    lemma_eval_tool();
    lemma_wait_for_tool();
    lemma_press_tool();
    lemma_select_tool();
    lemma_scroll_tool();
    lemma_cookies_tool();
    lemma_status_tool();
    lemma_configure_tool();
    lemma_close_tool();
}

} // verus!
