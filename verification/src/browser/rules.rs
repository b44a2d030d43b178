//! The rules for requests as the page gets them: JSON that says of each route what it is.

use vstd::prelude::*;

use crate::browser::requests;
use crate::browser::routes;
use crate::browser::routes::RouteActionView;
use crate::browser::{ManagerView, RouteView};
use crate::error::ErrorView;
use crate::json;
use crate::json::{Json, JsonView};
use crate::scripts;
use crate::step::{Event, PageId};
use crate::text;

verus! {

/// A value in JSON, without white space; its arrays and objects nest at most `room` deep.
pub open spec fn json_text(value: JsonView, room: nat) -> Seq<char>
    decreases room, 0nat,
{
    match value {
        JsonView::Null => "null"@,
        JsonView::Bool(b) => if b {
            "true"@
        } else {
            "false"@
        },
        JsonView::Number(t) => t,
        JsonView::Text(t) => json::quoted(t),
        JsonView::Array(items) => if room == 0 {
            seq![]
        } else {
            seq!['['] + items_text(items, (room - 1) as nat) + seq![']']
        },
        JsonView::Object(fields) => if room == 0 {
            seq![]
        } else {
            seq!['{'] + fields_text(fields, (room - 1) as nat) + seq!['}']
        },
    }
}

/// The items of an array in JSON, with commas between them.
pub open spec fn items_text(items: Seq<JsonView>, room: nat) -> Seq<char>
    decreases room, items.len() + 1,
{
    if items.len() == 0 {
        seq![]
    } else if items.len() == 1 {
        json_text(items[0], room)
    } else {
        items_text(items.drop_last(), room) + seq![','] + json_text(items.last(), room)
    }
}

/// The members of an object in JSON, with commas between them.
pub open spec fn fields_text(fields: Seq<(Seq<char>, JsonView)>, room: nat) -> Seq<char>
    decreases room, fields.len() + 1,
{
    if fields.len() == 0 {
        seq![]
    } else {
        let last: Seq<char> = json::quoted(fields.last().0) + seq![':'] + json_text(
            fields.last().1,
            room,
        );
        if fields.len() == 1 {
            last
        } else {
            fields_text(fields.drop_last(), room) + seq![','] + last
        }
    }
}

/// What the page is to do with the requests of a route: the type says whether they are blocked,
/// answered or noted, and an answer comes with its status, its type and its body.
pub open spec fn action_value(action: RouteActionView) -> JsonView {
    JsonView::Object(
        match action {
            RouteActionView::Block => seq![("type"@, JsonView::Text("block"@))],
            RouteActionView::Mock { status, content_type, body } => seq![
                ("type"@, JsonView::Text("mock"@)),
                ("status"@, JsonView::Number(text::decimal(status as nat))),
                ("contentType"@, JsonView::Text(content_type)),
                ("body"@, JsonView::Text(body)),
            ],
            RouteActionView::Log => seq![("type"@, JsonView::Text("log"@))],
        },
    )
}

/// A route as the page gets it.
pub open spec fn rule_value(route: RouteView) -> JsonView {
    JsonView::Object(
        seq![
            ("pattern"@, JsonView::Text(route.pattern)),
            ("action"@, action_value(route.action)),
        ],
    )
}

/// The routes as the page gets them: one object for each, in order.
pub open spec fn rules_value(routes: Seq<RouteView>) -> JsonView {
    JsonView::Array(routes.map_values(|route: RouteView| rule_value(route)))
}

/// A text in which nothing but a quote needs an escape: it holds no backslash and no control
/// character.
pub open spec fn plain(s: Seq<char>) -> bool {
    forall|i: int| 0 <= i < s.len() ==> #[trigger] s[i] != '\\' && s[i] as int >= 0x20
}

/// The texts of a route that stand in the rules by their quotes escaped alone are plain.
pub open spec fn plain_route(route: RouteView) -> bool {
    &&& plain(route.pattern)
    &&& route.action matches RouteActionView::Mock { content_type, .. } ==> plain(content_type)
}

proof fn lemma_plain(s: Seq<char>)
    requires
        plain(s),
    ensures
        text::escaped(s, '"') == json::quoted_chars(s),
    decreases s.len(),
{
    if s.len() > 0 {
        assert(plain(s.drop_last())) by {
            assert forall|i: int| 0 <= i < s.drop_last().len() implies #[trigger] s.drop_last()[i]
                != '\\' && s.drop_last()[i] as int >= 0x20 by {
                assert(s.drop_last()[i] == s[i]);
            }
        }
        lemma_plain(s.drop_last());
        assert(s[s.len() - 1] == s.last());
        assert(text::escaped(s, '"') =~= json::quoted_chars(s));
    }
}

/// A word between quotes.
spec fn word(s: Seq<char>) -> Seq<char> {
    seq!['"'] + s + seq!['"']
}

/// Nothing in a text needs an escape.
spec fn bare(s: Seq<char>) -> bool {
    forall|i: int| 0 <= i < s.len() ==> #[trigger] s[i] != '"' && s[i] != '\\' && s[i] as int >= 0x20
}

proof fn lemma_bare(s: Seq<char>)
    requires
        bare(s),
    ensures
        json::quoted_chars(s) == s,
    decreases s.len(),
{
    if s.len() > 0 {
        assert(bare(s.drop_last())) by {
            assert forall|i: int| 0 <= i < s.drop_last().len() implies #[trigger] s.drop_last()[i]
                != '"' && s.drop_last()[i] != '\\' && s.drop_last()[i] as int >= 0x20 by {
                assert(s.drop_last()[i] == s[i]);
            }
        }
        lemma_bare(s.drop_last());
        assert(s[s.len() - 1] == s.last());
        assert(json::quoted_chars(s) =~= s);
    } else {
        assert(json::quoted_chars(s) =~= s);
    }
}

/// Every character of a text is a letter.
spec fn letters_from(s: Seq<char>, k: int) -> bool
    decreases s.len() - k,
{
    k >= s.len() || (('a' <= s[k] <= 'z' || 'A' <= s[k] <= 'Z') && letters_from(s, k + 1))
}

proof fn lemma_letters(s: Seq<char>, k: int)
    requires
        0 <= k,
        letters_from(s, k),
    ensures
        forall|j: int| k <= j < s.len() ==> 'a' <= #[trigger] s[j] <= 'z' || 'A' <= s[j] <= 'Z',
    decreases s.len() - k,
{
    if k < s.len() {
        lemma_letters(s, k + 1);
    }
}

proof fn lemma_word(s: Seq<char>)
    requires
        letters_from(s, 0),
    ensures
        json::quoted(s) == word(s),
{
    lemma_letters(s, 0);
    lemma_bare(s);
}

proof fn lemma_words()
    ensures
        json::quoted("action"@) == word("action"@),
        json::quoted("block"@) == word("block"@),
        json::quoted("body"@) == word("body"@),
        json::quoted("contentType"@) == word("contentType"@),
        json::quoted("log"@) == word("log"@),
        json::quoted("mock"@) == word("mock"@),
        json::quoted("pattern"@) == word("pattern"@),
        json::quoted("status"@) == word("status"@),
        json::quoted("type"@) == word("type"@),
{
    reveal_with_fuel(letters_from, 13);
    reveal_strlit("action");
    lemma_word("action"@);
    reveal_strlit("block");
    lemma_word("block"@);
    reveal_strlit("body");
    lemma_word("body"@);
    reveal_strlit("contentType");
    lemma_word("contentType"@);
    reveal_strlit("log");
    lemma_word("log"@);
    reveal_strlit("mock");
    lemma_word("mock"@);
    reveal_strlit("pattern");
    lemma_word("pattern"@);
    reveal_strlit("status");
    lemma_word("status"@);
    reveal_strlit("type");
    lemma_word("type"@);
}

proof fn lemma_block_rule()
    ensures
        r#"{"type":"block"}"#@ == seq!['{'] + word("type"@) + seq![':'] + word("block"@) + seq!['}'],
{
    reveal_strlit(r#"{"type":"block"}"#);
    reveal_strlit("type");
    reveal_strlit("block");
    reveal_with_fuel(text::agree_from, 18);
    text::lemma_agreeing(r#"{"type":"block"}"#@, seq!['{'] + word("type"@) + seq![':'] + word("block"@) + seq!['}']);
}

proof fn lemma_log_rule()
    ensures
        r#"{"type":"log"}"#@ == seq!['{'] + word("type"@) + seq![':'] + word("log"@) + seq!['}'],
{
    reveal_strlit(r#"{"type":"log"}"#);
    reveal_strlit("type");
    reveal_strlit("log");
    reveal_with_fuel(text::agree_from, 16);
    text::lemma_agreeing(r#"{"type":"log"}"#@, seq!['{'] + word("type"@) + seq![':'] + word("log"@) + seq!['}']);
}

proof fn lemma_mock_start()
    ensures
        r#"{"type":"mock","status":"#@ == seq!['{'] + word("type"@) + seq![':'] + word("mock"@) + seq![','] + word("status"@) + seq![':'],
{
    reveal_strlit(r#"{"type":"mock","status":"#);
    reveal_strlit("type");
    reveal_strlit("mock");
    reveal_strlit("status");
    reveal_with_fuel(text::agree_from, 26);
    text::lemma_agreeing(r#"{"type":"mock","status":"#@, seq!['{'] + word("type"@) + seq![':'] + word("mock"@) + seq![','] + word("status"@) + seq![':']);
}

proof fn lemma_mock_type()
    ensures
        r#","contentType":""#@ == seq![','] + word("contentType"@) + seq![':', '"'],
{
    reveal_strlit(r#","contentType":""#);
    reveal_strlit("contentType");
    reveal_with_fuel(text::agree_from, 18);
    text::lemma_agreeing(r#","contentType":""#@, seq![','] + word("contentType"@) + seq![':', '"']);
}

proof fn lemma_mock_body()
    ensures
        r#"","body":"#@ == seq!['"', ','] + word("body"@) + seq![':'],
{
    reveal_strlit(r#"","body":"#);
    reveal_strlit("body");
    reveal_with_fuel(text::agree_from, 11);
    text::lemma_agreeing(r#"","body":"#@, seq!['"', ','] + word("body"@) + seq![':']);
}

proof fn lemma_rule_start()
    ensures
        r#"{"pattern":""#@ == seq!['{'] + word("pattern"@) + seq![':', '"'],
{
    reveal_strlit(r#"{"pattern":""#);
    reveal_strlit("pattern");
    reveal_with_fuel(text::agree_from, 14);
    text::lemma_agreeing(r#"{"pattern":""#@, seq!['{'] + word("pattern"@) + seq![':', '"']);
}

proof fn lemma_rule_action()
    ensures
        r#"","action":"#@ == seq!['"', ','] + word("action"@) + seq![':'],
{
    reveal_strlit(r#"","action":"#);
    reveal_strlit("action");
    reveal_with_fuel(text::agree_from, 13);
    text::lemma_agreeing(r#"","action":"#@, seq!['"', ','] + word("action"@) + seq![':']);
}

proof fn lemma_closing()
    ensures
        "}"@ == seq!['}'],
{
    reveal_strlit("}");
    reveal_with_fuel(text::agree_from, 3);
    text::lemma_agreeing("}"@, seq!['}']);
}

proof fn lemma_opening_list()
    ensures
        "["@ == seq!['['],
{
    reveal_strlit("[");
    reveal_with_fuel(text::agree_from, 3);
    text::lemma_agreeing("["@, seq!['[']);
}

proof fn lemma_closing_list()
    ensures
        "]"@ == seq![']'],
{
    reveal_strlit("]");
    reveal_with_fuel(text::agree_from, 3);
    text::lemma_agreeing("]"@, seq![']']);
}

proof fn lemma_regroup(
    t: Seq<char>,
    m: Seq<char>,
    s: Seq<char>,
    d: Seq<char>,
    c: Seq<char>,
    e: Seq<char>,
    b: Seq<char>,
    q: Seq<char>,
)
    ensures
        seq!['{'] + ((t + seq![':'] + m) + seq![','] + (s + seq![':'] + d) + seq![','] + (c
            + seq![':'] + (seq!['"'] + e + seq!['"'])) + seq![','] + (b + seq![':'] + q)) + seq![
            '}',
        ] == (seq!['{'] + t + seq![':'] + m + seq![','] + s + seq![':']) + d + (seq![','] + c
            + seq![':', '"']) + e + (seq!['"', ','] + b + seq![':']) + q + seq!['}'],
{
    let start = seq!['{'] + t + seq![':'] + m + seq![','] + s + seq![':'] + d;
    let middle = seq![','] + c + seq![':', '"'] + e;
    let end = seq!['"', ','] + b + seq![':'] + q + seq!['}'];
    assert(seq![':', '"'] =~= seq![':'] + seq!['"']);
    assert(seq!['"', ','] =~= seq!['"'] + seq![',']);
    assert((seq!['{'] + t + seq![':'] + m + seq![','] + s + seq![':']) + d + (seq![','] + c + seq![
        ':',
        '"',
    ]) + e + (seq!['"', ','] + b + seq![':']) + q + seq!['}'] =~= start + middle + end);
    assert(seq!['{'] + ((t + seq![':'] + m) + seq![','] + (s + seq![':'] + d) + seq![','] + (c
        + seq![':'] + (seq!['"'] + e + seq!['"'])) + seq![','] + (b + seq![':'] + q)) + seq![
        '}',
    ] =~= start + middle + end);
}

proof fn lemma_mock_fields(
    status: u16,
    content_type: Seq<char>,
    body: Seq<char>,
    room: nat,
)
    requires
        plain(content_type),
    ensures
        ({
            let action = RouteActionView::Mock { status, content_type, body };
            fields_text(action_value(action)->Object_0, room) == (word("type"@) + seq![':'] + word(
                "mock"@,
            )) + seq![','] + (word("status"@) + seq![':'] + text::decimal(status as nat)) + seq![
                ',',
            ] + (word("contentType"@) + seq![':'] + (seq!['"'] + text::escaped(content_type, '"')
                + seq!['"'])) + seq![','] + (word("body"@) + seq![':'] + json::quoted(body))
        }),
{
    lemma_words();
    lemma_plain(content_type);
    let fields = action_value(RouteActionView::Mock { status, content_type, body })->Object_0;
    let three = fields.drop_last();
    let two = three.drop_last();
    let one = two.drop_last();
    assert(one.last() == fields[0] && one.len() == 1);
    assert(two.last() == fields[1] && two.len() == 2);
    assert(three.last() == fields[2] && three.len() == 3);
    assert(json_text(fields[0].1, room) == word("mock"@));
    assert(json_text(fields[1].1, room) == text::decimal(status as nat));
    assert(json_text(fields[2].1, room) == seq!['"'] + text::escaped(content_type, '"') + seq![
        '"',
    ]);
    assert(json_text(fields[3].1, room) == json::quoted(body));
    reveal_with_fuel(fields_text, 5);
}

proof fn lemma_mock_json(status: u16, content_type: Seq<char>, body: Seq<char>, room: nat)
    requires
        room > 0,
        plain(content_type),
    ensures
        ({
            let action = RouteActionView::Mock { status, content_type, body };
            routes::action_text(action) == json_text(action_value(action), room)
        }),
{
    lemma_mock_start();
    lemma_mock_type();
    lemma_mock_body();
    lemma_closing();
    lemma_mock_fields(status, content_type, body, (room - 1) as nat);
    lemma_regroup(
        word("type"@),
        word("mock"@),
        word("status"@),
        text::decimal(status as nat),
        word("contentType"@),
        text::escaped(content_type, '"'),
        word("body"@),
        json::quoted(body),
    );
}

proof fn lemma_action_json(action: RouteActionView, room: nat)
    requires
        room > 0,
        action matches RouteActionView::Mock { content_type, .. } ==> plain(content_type),
    ensures
        routes::action_text(action) == json_text(action_value(action), room),
{
    lemma_words();
    let fields = action_value(action)->Object_0;
    let rest = (room - 1) as nat;
    match action {
        RouteActionView::Block => {
            lemma_block_rule();
            assert(json_text(fields[0].1, rest) == word("block"@));
            assert(fields_text(fields, rest) == word("type"@) + seq![':'] + word("block"@));
            assert(json_text(action_value(action), room) =~= routes::action_text(action));
        },
        RouteActionView::Log => {
            lemma_log_rule();
            assert(json_text(fields[0].1, rest) == word("log"@));
            assert(fields_text(fields, rest) == word("type"@) + seq![':'] + word("log"@));
            assert(json_text(action_value(action), room) =~= routes::action_text(action));
        },
        RouteActionView::Mock { status, content_type, body } => {
            lemma_mock_json(status, content_type, body, room);
        },
    }
}

proof fn lemma_rule_json(route: RouteView, room: nat)
    requires
        room > 1,
        plain_route(route),
    ensures
        routes::rule_text(route) == json_text(rule_value(route), room),
{
    lemma_words();
    lemma_rule_start();
    lemma_rule_action();
    lemma_closing();
    lemma_plain(route.pattern);
    let rest = (room - 1) as nat;
    lemma_action_json(route.action, rest);
    let fields = rule_value(route)->Object_0;
    let one = fields.drop_last();
    assert(one.last() == fields[0] && one.len() == 1);
    let first = word("pattern"@) + seq![':'] + (seq!['"'] + text::escaped(route.pattern, '"')
        + seq!['"']);
    assert(json_text(fields[0].1, rest) == seq!['"'] + text::escaped(route.pattern, '"')
        + seq!['"']);
    assert(fields_text(one, rest) == first);
    assert(fields_text(fields, rest) == first + seq![','] + (word("action"@) + seq![':']
        + routes::action_text(route.action)));
    assert(json_text(rule_value(route), room) =~= routes::rule_text(route));
}

proof fn lemma_rules_body_json(routes: Seq<RouteView>)
    requires
        forall|i: int| 0 <= i < routes.len() ==> plain_route(#[trigger] routes[i]),
    ensures
        routes::rules_body(routes) == items_text(rules_value(routes)->Array_0, 2),
    decreases routes.len(),
{
    let items = rules_value(routes)->Array_0;
    if routes.len() > 0 {
        assert(plain_route(routes[routes.len() - 1]));
        lemma_rule_json(routes.last(), 2);
        assert(items.last() == rule_value(routes.last()));
    }
    if routes.len() > 1 {
        assert forall|i: int| 0 <= i < routes.drop_last().len() implies plain_route(
            #[trigger] routes.drop_last()[i],
        ) by {
            assert(plain_route(routes[i]));
        }
        lemma_rules_body_json(routes.drop_last());
        assert(items.drop_last() =~= rules_value(routes.drop_last())->Array_0);
    }
}

/// The rules are JSON: an array with one object for each route, in order, that tells its pattern
/// and what becomes of its requests.
pub proof fn lemma_rules_json(routes: Seq<RouteView>)
    requires
        forall|i: int| 0 <= i < routes.len() ==> plain_route(#[trigger] routes[i]),
    ensures
        routes::rules_text(routes) == json_text(rules_value(routes), 3),
{
    lemma_opening_list();
    lemma_closing_list();
    lemma_rules_body_json(routes);
}

/// A route that is added comes last, and the page gets the rules for all routes, in JSON between
/// the two halves of the script that installs them. The report names the pattern, what becomes
/// of the requests and the number of routes; the interception counts as installed once the page
/// took the script, and the route stays even where it did not.
pub proof fn lemma_add_route(state: ManagerView, page: PageId, route: RouteView, v: Json, m: String)
    requires
        state.page() == Some(page),
        plain_route(route),
        forall|i: int| 0 <= i < state.routes.len() ==> plain_route(#[trigger] state.routes[i]),
    ensures
        ({
            let all = state.routes.push(route);
            let (after, step) = state.add_route(route);
            let (end, last) = after.add_route_next(step->Ask_1, Event::Value(v));
            let (kept, failed) = after.add_route_next(step->Ask_1, Event::Failed(m));
            let shown = match route.action {
                RouteActionView::Block => "Block"@,
                RouteActionView::Log => "Log"@,
                RouteActionView::Mock { status, content_type, body } => "Mock { status: "@
                    + text::decimal(status as nat) + ", content_type: "@ + text::debug_quoted(
                    content_type,
                ) + ", body: "@ + text::debug_quoted(body) + " }"@,
            };
            &&& after == (ManagerView { routes: all, ..state })
            &&& requests::sends(
                step,
                page,
                scripts::INTERCEPTION_HEAD@ + json_text(rules_value(all), 3)
                    + scripts::INTERCEPTION_TAIL@,
            )
            &&& end == (ManagerView { routes: all, interception_active: true, ..state })
            &&& requests::gives(
                last,
                "Route added: "@ + route.pattern + " ("@ + shown + "), "@ + text::decimal(
                    state.routes.len() + 1,
                ) + " total routes"@,
            )
            &&& kept == after
            &&& requests::fails(failed, ErrorView::Cdp(m@))
        }),
{
    let all = state.routes.push(route);
    assert forall|i: int| 0 <= i < all.len() implies plain_route(#[trigger] all[i]) by {
        if i < state.routes.len() {
            assert(plain_route(state.routes[i]));
        }
    }
    lemma_rules_json(all);
}

/// The rule for any route, whatever its texts hold: quotes in the pattern and in the type of an
/// answer get a backslash, and the body is a JSON string. Rules are parted by commas between
/// square brackets.
pub proof fn lemma_rule_texts(routes: Seq<RouteView>, route: RouteView)
    ensures
        ({
            let rule = "{\"pattern\":\""@ + text::escaped(route.pattern, '"')
                + "\",\"action\":"@ + (match route.action {
                RouteActionView::Block => "{\"type\":\"block\"}"@,
                RouteActionView::Log => "{\"type\":\"log\"}"@,
                RouteActionView::Mock { status, content_type, body } =>
                "{\"type\":\"mock\",\"status\":"@ + text::decimal(status as nat)
                    + ",\"contentType\":\""@ + text::escaped(content_type, '"')
                    + "\",\"body\":"@ + json::quoted(body) + "}"@,
            }) + "}"@;
            &&& routes::rules_text(seq![]) == "["@ + "]"@
            &&& routes::rules_text(seq![route]) == "["@ + rule + "]"@
            &&& routes.len() > 0 ==> routes::rules_text(routes.push(route)) == "["@
                + routes::rules_body(routes) + seq![','] + rule + "]"@
            &&& routes.len() > 0 ==> routes::rules_text(routes) == "["@ + routes::rules_body(
                routes,
            ) + "]"@
        }),
{
    assert("["@ + seq![] =~= "["@);
    if routes.len() > 0 {
        assert(routes.push(route).drop_last() =~= routes);
        assert(routes::rules_text(routes.push(route)) =~= "["@ + routes::rules_body(routes)
            + seq![','] + routes::rule_text(route) + "]"@);
    }
}

/// What is listed of a route: its pattern, and in a word what becomes of its requests, with
/// status and type of an answer. All routes are listed, in order.
pub proof fn lemma_list_routes(state: ManagerView, i: int)
    ensures
        state.list_routes().len() == state.routes.len(),
        0 <= i < state.routes.len() ==> {
            let action = match state.routes[i].action {
                RouteActionView::Block => "block"@,
                RouteActionView::Log => "log"@,
                RouteActionView::Mock { status, content_type, .. } => "mock("@ + text::decimal(
                    status as nat,
                ) + "; "@ + content_type + ")"@,
            };
            &&& state.list_routes()[i] matches JsonView::Object(fields)
            &&& fields =~= seq![
                ("pattern"@, JsonView::Text(state.routes[i].pattern)),
                ("action"@, JsonView::Text(action)),
            ]
        },
{
    if 0 <= i < state.routes.len() {
        assert(state.list_routes()[i] == routes::listed(state.routes[i]));
    }
}

/// What is reported of removed routes: how many there were of the pattern, and how many are left.
pub proof fn lemma_remove_report(state: ManagerView, pattern: Seq<char>)
    ensures
        ({
            let (after, report) = state.remove_route(pattern);
            let removed = state.routes.filter(|r: RouteView| r.pattern == pattern).len();
            &&& after == (ManagerView {
                routes: state.routes.filter(|r: RouteView| r.pattern != pattern),
                ..state
            })
            &&& removed + after.routes.len() == state.routes.len()
            &&& report == "Removed "@ + text::decimal(removed) + " route(s) matching '"@ + pattern
                + "', "@ + text::decimal(after.routes.len()) + " remaining"@
        }),
{
    lemma_filter_parts(state.routes, pattern);
}

proof fn lemma_filter_parts(routes: Seq<RouteView>, pattern: Seq<char>)
    ensures
        routes.filter(|r: RouteView| r.pattern == pattern).len() + routes.filter(
            |r: RouteView| r.pattern != pattern,
        ).len() == routes.len(),
    decreases routes.len(),
{
    reveal(Seq::filter);
    if routes.len() > 0 {
        lemma_filter_parts(routes.drop_last(), pattern);
    }
}

/// Disabling the interception leaves no route, and the interception does not count as installed.
pub proof fn lemma_disabled(state: ManagerView)
    ensures
        state.passing() == (ManagerView { routes: seq![], interception_active: false, ..state }),
{
}

} // verus!
