//! Pages, input, waits, scripts and routes of a manager.

use browser_mcp::browser::input::name_key;
use browser_mcp::browser::page::encode_picture;
use browser_mcp::browser::routes::{report_added, show_mock};
use browser_mcp::browser::{BrowserManager, RouteAction};
use browser_mcp::error::BrowserError;
use browser_mcp::json::Json;
use browser_mcp::scripts;
use browser_mcp::step::{Action, Cookie, Event, Operation, Step};

fn object(fields: Vec<(&str, Json)>) -> Json {
    let mut members: Vec<(String, Json)> = Vec::new();
    for (name, value) in fields {
        members.push((name.to_string(), value));
    }
    Json::Object(members)
}

fn text(s: &str) -> Event {
    Event::Text(s.to_string())
}

fn failed(s: &str) -> Event {
    Event::Failed(s.to_string())
}

fn value(v: Json) -> Event {
    Event::Value(v)
}

fn cdp<T>(s: &str) -> Result<T, BrowserError> {
    Err(BrowserError::Cdp(s.to_string()))
}

fn not_found<T>(s: &str) -> Result<T, BrowserError> {
    Err(BrowserError::ElementNotFound(s.to_string()))
}

/// Runs an operation to its end on given answers; every answer has to be asked for.
fn drive<P: Operation>(
    manager: &mut BrowserManager,
    first: Step<P, P::Output>,
    answers: Vec<Event>,
) -> (Vec<Action>, Result<P::Output, BrowserError>) {
    let mut actions = Vec::new();
    let mut step = first;
    let mut answers = answers.into_iter();
    loop {
        match step {
            Step::Ask(action, pending) => {
                actions.push(action);
                let event = answers.next().unwrap();
                step = pending.resume(manager, event);
            }
            Step::Done(result) => {
                assert!(answers.next().is_none());
                return (actions, result);
            }
        }
    }
}

/// A manager with one page, the page 3.
fn manager() -> BrowserManager {
    let mut manager = BrowserManager::new();
    let step = manager.launch(true, None);
    drive(&mut manager, step, vec![Event::Done, Event::Page(3)]).1.unwrap();
    manager
}

fn evaluate(script: &str) -> Action {
    Action::Evaluate { page: 3, script: script.to_string() }
}

fn find(selector: &str) -> Action {
    Action::FindElement { page: 3, selector: selector.to_string() }
}

#[test]
fn navigating_returns_the_title() {
    let mut m = manager();
    let step = m.navigate("https://a.test", "load");
    let (actions, result) = drive(&mut m, step, vec![Event::Done, Event::Done, text("Title")]);
    assert_eq!(
        actions,
        vec![
            Action::Goto { page: 3, url: "https://a.test".to_string() },
            Action::Sleep { ms: 500 },
            Action::PageTitle { page: 3 },
        ]
    );
    assert_eq!(result, Ok("Title".to_string()));
    let step = m.navigate("https://b.test", "load");
    assert_eq!(drive(&mut m, step, vec![failed("dns")]).1, cdp("dns"));
    assert_eq!(m.status().str_or("current_url", ""), "https://b.test");
    let step = m.navigate("https://c.test", "load");
    let answers = vec![Event::Done, Event::Done, failed("gone")];
    assert_eq!(drive(&mut m, step, answers).1, Ok("".to_string()));
}

#[test]
fn navigating_without_a_page_sets_the_address() {
    let mut m = BrowserManager::new();
    let step = m.navigate("https://a.test", "load");
    assert_eq!(drive(&mut m, step, vec![]).1, Err(BrowserError::NoPage));
    assert_eq!(m.status().str_or("current_url", ""), "https://a.test");
}

#[test]
fn clicking_an_element() {
    let mut m = manager();
    let step = m.click_selector("#a");
    let (actions, result) = drive(&mut m, step, vec![Event::Element(8), Event::Done]);
    assert_eq!(actions, vec![find("#a"), Action::ClickElement { element: 8, limit_ms: 5000 }]);
    assert_eq!(result, Ok(()));
    let step = m.click_selector("#a");
    assert_eq!(drive(&mut m, step, vec![Event::Element(8), Event::TimedOut]).1, Ok(()));
    let step = m.click_selector("#a");
    assert_eq!(drive(&mut m, step, vec![Event::Element(8), failed("hidden")]).1, cdp("hidden"));
    let step = m.click_selector("#a");
    assert_eq!(drive(&mut m, step, vec![failed("none")]).1, not_found("#a"));
}

#[test]
fn clicking_at_a_point() {
    let mut m = manager();
    let step = m.click_coords(-3, 40);
    let (actions, result) = drive(&mut m, step, vec![Event::TimedOut]);
    assert_eq!(
        actions,
        vec![Action::EvaluateWithin {
            page: 3,
            script: "document.elementFromPoint(-3, 40)?.click()".to_string(),
            limit_ms: 5000,
        }]
    );
    assert_eq!(result, Ok(()));
    let step = m.click_coords(0, 0);
    assert_eq!(drive(&mut m, step, vec![failed("x")]).1, cdp("x"));
    let mut empty = BrowserManager::new();
    let step = empty.click_coords(0, 0);
    assert_eq!(drive(&mut empty, step, vec![]).1, Err(BrowserError::NoPage));
}

#[test]
fn typing_text() {
    let mut m = manager();
    let step = m.type_text("[name='q']", "hi", true);
    let answers = vec![Event::Element(8), failed("ignored"), Event::Done];
    let (actions, result) = drive(&mut m, step, answers);
    assert_eq!(
        actions,
        vec![
            find("[name='q']"),
            evaluate("document.querySelector('[name=\\'q\\']').value = ''"),
            Action::TypeText { element: 8, text: "hi".to_string() },
        ]
    );
    assert_eq!(result, Ok(()));
    let step = m.type_text("#q", "hi", false);
    let (actions, result) = drive(&mut m, step, vec![Event::Element(8), failed("detached")]);
    assert_eq!(actions.len(), 2);
    assert_eq!(result, cdp("detached"));
    let step = m.type_text("#q", "hi", false);
    assert_eq!(drive(&mut m, step, vec![failed("none")]).1, not_found("#q"));
}

#[test]
fn pressing_keys() {
    let mut m = manager();
    for (given, sent) in [
        ("ENTER", "Enter"),
        ("return", "Enter"),
        ("Tab", "Tab"),
        ("esc", "Escape"),
        ("Escape", "Escape"),
        ("BackSpace", "Backspace"),
        ("delete", "Delete"),
        ("up", "ArrowUp"),
        ("ArrowUp", "ArrowUp"),
        ("Down", "ArrowDown"),
        ("left", "ArrowLeft"),
        ("RIGHT", "ArrowRight"),
        ("Space", "Space"),
        ("F5", "F5"),
        ("a", "a"),
    ] {
        let step = m.press_key(given);
        let (actions, result) = drive(&mut m, step, vec![Event::Done, Event::Done]);
        assert_eq!(
            actions,
            vec![
                Action::KeyDown { page: 3, key: sent.to_string() },
                Action::KeyUp { page: 3, key: sent.to_string() },
            ]
        );
        assert_eq!(result, Ok(()));
    }
    let step = m.press_key("a");
    assert_eq!(drive(&mut m, step, vec![failed("x")]).1, cdp("x"));
    let step = m.press_key("a");
    assert_eq!(drive(&mut m, step, vec![Event::Done, failed("y")]).1, cdp("y"));
}

#[test]
fn names_of_keys() {
    assert_eq!(name_key("arrowleft", "ArrowLEFT"), "ArrowLeft");
    assert_eq!(name_key("arrowdown", "x"), "ArrowDown");
    assert_eq!(name_key("arrowright", "x"), "ArrowRight");
    assert_eq!(name_key("home", "Home"), "Home");
    assert_eq!(name_key("", ""), "");
}

#[test]
fn screenshots_are_base64() {
    let mut m = manager();
    for (bytes, encoded) in [
        ("", ""),
        ("f", "Zg=="),
        ("fo", "Zm8="),
        ("foo", "Zm9v"),
        ("foobar", "Zm9vYmFy"),
    ] {
        let step = m.screenshot(true, 70);
        let (actions, result) = drive(&mut m, step, vec![Event::Bytes(bytes.as_bytes().to_vec())]);
        assert_eq!(actions, vec![Action::Screenshot { page: 3, full_page: true, quality: 70 }]);
        assert_eq!(result, Ok(encoded.to_string()));
    }
    assert_eq!(encode_picture(Event::Bytes(vec![0xff, 0xfe, 0xfb])), Ok("//77".to_string()));
    assert_eq!(encode_picture(Event::Bytes(vec![0xfb, 0xf0])), Ok("+/A=".to_string()));
    let step = m.screenshot(false, 70);
    assert_eq!(drive(&mut m, step, vec![failed("x")]).1, cdp("x"));
}

#[test]
fn screenshots_to_a_file() {
    let mut m = manager();
    let step = m.screenshot_to_file("a.jpg", false, 80);
    let (actions, result) = drive(&mut m, step, vec![Event::Bytes(vec![1, 2]), Event::Done]);
    assert_eq!(actions[1], Action::WriteBytes { path: "a.jpg".to_string(), bytes: vec![1, 2] });
    assert_eq!(result, Ok("a.jpg".to_string()));
    let step = m.screenshot_to_file("a.jpg", false, 80);
    assert_eq!(
        drive(&mut m, step, vec![Event::Bytes(vec![1, 2]), failed("full")]).1,
        Err(BrowserError::ProcessError("Failed to write: full".to_string()))
    );
    let step = m.screenshot_to_file("a.jpg", false, 80);
    assert_eq!(drive(&mut m, step, vec![failed("x")]).1, cdp("x"));
}

#[test]
fn screenshots_of_an_element() {
    let mut m = manager();
    let step = m.screenshot_element("#a", 80);
    let (actions, result) =
        drive(&mut m, step, vec![Event::Element(8), Event::Bytes(b"foo".to_vec())]);
    assert_eq!(actions, vec![find("#a"), Action::ElementScreenshot { element: 8 }]);
    assert_eq!(result, Ok("Zm9v".to_string()));
    let step = m.screenshot_element("#a", 80);
    assert_eq!(drive(&mut m, step, vec![failed("none")]).1, not_found("#a"));
}

#[test]
fn a_burst_has_as_many_pictures_as_asked_for() {
    let mut m = manager();
    let step = m.screenshot_burst(2, 30, 50);
    let answers = vec![
        Event::Bytes(b"foo".to_vec()),
        Event::Done,
        Event::Bytes(b"f".to_vec()),
        Event::Done,
    ];
    let (actions, result) = drive(&mut m, step, answers);
    let shot = || Action::Screenshot { page: 3, full_page: false, quality: 50 };
    assert_eq!(
        actions,
        vec![shot(), Action::Sleep { ms: 30 }, shot(), Action::Sleep { ms: 30 }]
    );
    assert_eq!(result, Ok(vec!["Zm9v".to_string(), "Zg==".to_string()]));
    let step = m.screenshot_burst(0, 30, 50);
    assert_eq!(drive(&mut m, step, vec![]).1, Ok(vec![]));
    let step = m.screenshot_burst(2, 30, 50);
    assert_eq!(drive(&mut m, step, vec![failed("x")]).1, cdp("x"));
    let mut empty = BrowserManager::new();
    let step = empty.screenshot_burst(1, 30, 50);
    assert_eq!(drive(&mut empty, step, vec![]).1, Err(BrowserError::NoPage));
}

#[test]
fn html_and_text() {
    let mut m = manager();
    let step = m.get_html(None);
    let (actions, result) = drive(&mut m, step, vec![text("<html>")]);
    assert_eq!(actions, vec![Action::PageContent { page: 3 }]);
    assert_eq!(result, Ok("<html>".to_string()));
    let step = m.get_html(Some("#a"));
    let (actions, result) = drive(&mut m, step, vec![Event::Element(8), text("<p>")]);
    assert_eq!(actions, vec![find("#a"), Action::ElementHtml { element: 8 }]);
    assert_eq!(result, Ok("<p>".to_string()));
    let step = m.get_html(Some("#a"));
    assert_eq!(drive(&mut m, step, vec![Event::Element(8), Event::Done]).1, cdp("No HTML"));
    let step = m.get_html(Some("#a"));
    assert_eq!(drive(&mut m, step, vec![failed("none")]).1, not_found("#a"));
    let step = m.get_text("#a");
    assert_eq!(drive(&mut m, step, vec![Event::Element(8), text("t")]).1, Ok("t".to_string()));
    let step = m.get_text("#a");
    assert_eq!(drive(&mut m, step, vec![Event::Element(8), Event::Done]).1, cdp("No text"));
    let step = m.get_text("#a");
    assert_eq!(drive(&mut m, step, vec![Event::Element(8), failed("x")]).1, cdp("x"));
}

#[test]
fn cookies_of_a_page() {
    let mut m = manager();
    let cookie = Cookie {
        name: "n".to_string(),
        value: "v".to_string(),
        domain: "d".to_string(),
    };
    let step = m.get_cookies();
    let (actions, result) = drive(&mut m, step, vec![Event::Cookies(vec![cookie])]);
    assert_eq!(actions, vec![Action::ReadCookies { page: 3 }]);
    let listed = object(vec![
        ("name", Json::text("n")),
        ("value", Json::text("v")),
        ("domain", Json::text("d")),
    ]);
    assert_eq!(result, Ok(vec![listed]));
    let step = m.get_cookies();
    let answers = vec![failed("field"), value(Json::Array(vec![Json::text("c")]))];
    let (actions, result) = drive(&mut m, step, answers);
    assert_eq!(actions[1], evaluate(scripts::READ_COOKIES));
    assert_eq!(result, Ok(vec![Json::text("c")]));
    let step = m.get_cookies();
    assert_eq!(drive(&mut m, step, vec![failed("field"), value(Json::Null)]).1, Ok(vec![]));
    let step = m.set_cookie("n", "v", "d");
    let (actions, result) = drive(&mut m, step, vec![failed("x")]);
    assert_eq!(
        actions,
        vec![Action::SetCookie {
            page: 3,
            name: "n".to_string(),
            value: "v".to_string(),
            domain: "d".to_string(),
        }]
    );
    assert_eq!(result, cdp("x"));
}

#[test]
fn clearing_cookies_deletes_all_that_are_listed() {
    let cookie = |name: &str| Cookie {
        name: name.to_string(),
        value: "v".to_string(),
        domain: ".a.test".to_string(),
    };
    let mut m = manager();
    let step = m.clear_cookies();
    let answers = vec![Event::Cookies(vec![cookie("a"), cookie("b")]), Event::Done];
    let (actions, result) = drive(&mut m, step, answers);
    assert_eq!(
        actions,
        vec![
            Action::ReadCookies { page: 3 },
            Action::DeleteCookies { page: 3, cookies: vec![cookie("a"), cookie("b")] },
        ]
    );
    assert_eq!(result, Ok(()));
    let step = m.clear_cookies();
    let listed = Json::Array(vec![object(vec![
        ("name", Json::text("c")),
        ("value", Json::text("v")),
        ("domain", Json::text(".a.test")),
    ])]);
    let (actions, result) = drive(&mut m, step, vec![failed("field"), value(listed), failed("x")]);
    assert_eq!(actions[2], Action::DeleteCookies { page: 3, cookies: vec![cookie("c")] });
    assert_eq!(result, cdp("x"));
    let step = m.clear_cookies();
    assert_eq!(drive(&mut m, step, vec![failed("field"), failed("y")]).1, cdp("y"));
    let mut empty = BrowserManager::new();
    let step = empty.clear_cookies();
    assert_eq!(drive(&mut empty, step, vec![]).1, Err(BrowserError::NoPage));
}

#[test]
fn an_xpath_match_goes_by_a_selector_of_its_own_alone() {
    let script = scripts::locate_xpath_script("//a");
    let tests = [
        "const names = s => { try { return document.querySelector(s) === el; } catch (e) { return false; } };",
        "steps = ' > :nth-child(' + place + ')' + steps;",
        "return ':root' + steps;",
        "if (sel ? !names(sel) : !el.contains(document.elementFromPoint(cx, cy))) sel = path();",
        "selector: sel,",
    ];
    let mut from = 0;
    for test in tests {
        from += script[from..].find(test).unwrap() + test.len();
    }
}

#[test]
fn hovering_focusing_looking() {
    let mut m = manager();
    let step = m.hover("#a");
    let (actions, result) = drive(&mut m, step, vec![Event::Element(8), failed("ignored")]);
    assert_eq!(actions[1], Action::ScrollIntoView { element: 8 });
    assert_eq!(result, Ok(()));
    let step = m.hover("#a");
    assert_eq!(drive(&mut m, step, vec![failed("none")]).1, not_found("#a"));
    let step = m.focus("#a");
    let (actions, result) = drive(&mut m, step, vec![Event::Element(8), failed("x")]);
    assert_eq!(actions[1], Action::FocusElement { element: 8 });
    assert_eq!(result, cdp("x"));
    let step = m.focus("#a");
    assert_eq!(drive(&mut m, step, vec![failed("none")]).1, not_found("#a"));
    let step = m.element_exists("#a");
    assert_eq!(drive(&mut m, step, vec![Event::Element(8)]).1, Ok(true));
    let step = m.element_exists("#a");
    assert_eq!(drive(&mut m, step, vec![failed("none")]).1, Ok(false));
    let mut empty = BrowserManager::new();
    let step = empty.element_exists("#a");
    assert_eq!(drive(&mut empty, step, vec![]).1, Err(BrowserError::NoPage));
}

#[test]
fn waiting_for_an_element() {
    let mut m = manager();
    let step = m.wait_for("#a", 1000, false);
    let answers = vec![
        Event::Done,
        Event::Millis(0),
        failed("none"),
        Event::Done,
        Event::Millis(101),
        Event::Element(8),
    ];
    let (actions, result) = drive(&mut m, step, answers);
    assert_eq!(
        actions,
        vec![
            Action::StartTimer,
            Action::ReadTimer,
            find("#a"),
            Action::Sleep { ms: 100 },
            Action::ReadTimer,
            find("#a"),
        ]
    );
    assert_eq!(result, Ok(()));
}

#[test]
fn waiting_for_a_visible_element() {
    let mut m = manager();
    let step = m.auto_wait_selector("#a'b", 1000);
    let answers = vec![
        Event::Done,
        Event::Millis(0),
        Event::Element(8),
        value(Json::Bool(false)),
        Event::Done,
        Event::Millis(101),
        Event::Element(8),
        value(Json::Bool(true)),
    ];
    let (actions, result) = drive(&mut m, step, answers);
    assert_eq!(
        actions[3],
        evaluate(
            "(() => { const el = document.querySelector('#a\\'b'); if (!el) return false; const style = window.getComputedStyle(el); return style.display !== 'none' && style.visibility !== 'hidden' && style.opacity !== '0' && el.offsetParent !== null; })()"
        )
    );
    assert_eq!(result, Ok(()));
}

#[test]
fn waiting_too_long() {
    let mut m = manager();
    let step = m.wait_for("#a", 50, true);
    let answers = vec![
        Event::Done,
        Event::Millis(49),
        Event::Element(8),
        failed("x"),
        Event::Done,
        Event::Millis(50),
    ];
    assert_eq!(
        drive(&mut m, step, answers).1,
        Err(BrowserError::Timeout("Waiting for #a (visible)".to_string()))
    );
    let step = m.wait_for("#a", 0, false);
    assert_eq!(
        drive(&mut m, step, vec![Event::Done, Event::Millis(0)]).1,
        Err(BrowserError::Timeout("Waiting for #a".to_string()))
    );
    let mut empty = BrowserManager::new();
    let step = empty.wait_for("#a", 50, false);
    assert_eq!(drive(&mut empty, step, vec![]).1, Err(BrowserError::NoPage));
}

fn state(found: bool, visible: bool) -> Event {
    value(object(vec![("found", Json::Bool(found)), ("visible", Json::Bool(visible))]))
}

#[test]
fn waiting_for_an_xpath() {
    let mut m = manager();
    let step = m.wait_for_xpath("//a", 1000, false);
    let answers = vec![Event::Done, Event::Millis(0), state(true, false)];
    assert_eq!(drive(&mut m, step, answers).1, Ok(()));
    let step = m.auto_wait_xpath("//a[@x=\"y\"]", 1000);
    let answers = vec![
        Event::Done,
        Event::Millis(0),
        state(true, false),
        Event::Done,
        Event::Millis(0),
        failed("x"),
        Event::Done,
        Event::Millis(0),
        state(true, true),
    ];
    let (actions, result) = drive(&mut m, step, answers);
    assert_eq!(actions[2], evaluate(&scripts::xpath_state_script("//a[@x=\"y\"]")));
    assert_eq!(result, Ok(()));
    let step = m.wait_for_xpath("//a", 10, true);
    let answers = vec![Event::Done, Event::Millis(10)];
    assert_eq!(
        drive(&mut m, step, answers).1,
        Err(BrowserError::Timeout("Waiting for xpath: //a (visible)".to_string()))
    );
}

#[test]
fn an_xpath_is_waited_for_without_a_page() {
    let mut m = BrowserManager::new();
    let step = m.wait_for_xpath("//a", 100, false);
    let answers = vec![Event::Done, Event::Millis(0), Event::Done, Event::Millis(100)];
    let (actions, result) = drive(&mut m, step, answers);
    assert_eq!(actions[2], Action::Sleep { ms: 100 });
    assert_eq!(result, Err(BrowserError::Timeout("Waiting for xpath: //a".to_string())));
}

#[test]
fn scripts_and_their_values() {
    let mut m = manager();
    let step = m.evaluate("1 + 1");
    let (actions, result) = drive(&mut m, step, vec![value(Json::number(2))]);
    assert_eq!(actions, vec![evaluate("1 + 1")]);
    assert_eq!(result, Ok(Json::number(2)));
    let step = m.evaluate("x");
    assert_eq!(drive(&mut m, step, vec![failed("ReferenceError")]).1, cdp("ReferenceError"));
    let mut empty = BrowserManager::new();
    let step = empty.evaluate("x");
    assert_eq!(drive(&mut empty, step, vec![]).1, Err(BrowserError::NoPage));
    let step = m.get_url();
    assert_eq!(drive(&mut m, step, vec![value(Json::text("u"))]).1, Ok("u".to_string()));
    let step = m.get_url();
    assert_eq!(drive(&mut m, step, vec![value(Json::Null)]).1, cdp("No URL"));
    let step = m.get_clickables();
    assert_eq!(drive(&mut m, step, vec![value(Json::Null)]).1, Ok(vec![]));
    let step = m.get_clickables();
    assert_eq!(
        drive(&mut m, step, vec![value(Json::Array(vec![Json::Null]))]).1,
        Ok(vec![Json::Null])
    );
    let step = m.get_metrics();
    assert_eq!(drive(&mut m, step, vec![value(Json::Null)]).1, Ok(Json::Null));
    let step = m.get_forms();
    assert_eq!(drive(&mut m, step, vec![failed("x")]).1, cdp("x"));
}

fn found(selector: Json) -> Json {
    object(vec![
        ("text", Json::text("Go")),
        ("selector", selector),
        ("cx", Json::number(12)),
        ("cy", Json::Number("-4".to_string())),
    ])
}

#[test]
fn resolving_an_xpath() {
    let mut m = manager();
    let step = m.resolve_xpath("//a[@x=\"y\"]");
    let (actions, result) = drive(&mut m, step, vec![value(found(Json::Null))]);
    assert_eq!(result, Ok(found(Json::Null)));
    match &actions[0] {
        Action::Evaluate { script, .. } => {
            assert!(script.contains("document.evaluate(\"//a[@x=\\\"y\\\"]\", document"));
        }
        _ => panic!("no script"),
    }
    let step = m.resolve_xpath("//a");
    assert_eq!(drive(&mut m, step, vec![value(Json::Null)]).1, not_found("xpath: //a"));
}

#[test]
fn clicking_under_an_xpath() {
    let mut m = manager();
    let step = m.click_xpath("//a");
    let answers = vec![value(found(Json::text("#go"))), Event::Element(8), Event::Done];
    let (actions, result) = drive(&mut m, step, answers);
    assert_eq!(actions[1], find("#go"));
    assert_eq!(result, Ok("Clicked 'Go' via #go".to_string()));
    let step = m.click_xpath("//a");
    let (actions, result) = drive(&mut m, step, vec![value(found(Json::Null)), Event::Done]);
    assert_eq!(
        actions[1],
        Action::EvaluateWithin {
            page: 3,
            script: "document.elementFromPoint(12, -4)?.click()".to_string(),
            limit_ms: 5000,
        }
    );
    assert_eq!(result, Ok("Clicked 'Go' at (12,-4)".to_string()));
    let step = m.click_xpath("//a");
    let answers = vec![value(object(vec![])), Event::TimedOut];
    assert_eq!(drive(&mut m, step, answers).1, Ok("Clicked '?' at (0,0)".to_string()));
    let step = m.click_xpath("//a");
    let answers = vec![value(found(Json::text("#go"))), failed("none")];
    assert_eq!(drive(&mut m, step, answers).1, not_found("#go"));
}

#[test]
fn coordinates_are_truncated_to_32_bits() {
    let mut m = manager();
    let wide = object(vec![
        ("cx", Json::Number("4294967297".to_string())),
        ("cy", Json::Number("2147483648".to_string())),
    ]);
    let step = m.click_xpath("//a");
    assert_eq!(
        drive(&mut m, step, vec![value(wide), Event::Done]).1,
        Ok("Clicked '?' at (1,-2147483648)".to_string())
    );
}

#[test]
fn typing_under_an_xpath_by_selector() {
    let mut m = manager();
    let step = m.type_xpath("//a", "hi", true);
    let answers =
        vec![value(found(Json::text("#go"))), Event::Element(8), Event::Done, Event::Done];
    let (actions, result) = drive(&mut m, step, answers);
    assert_eq!(actions[3], Action::TypeText { element: 8, text: "hi".to_string() });
    assert_eq!(result, Ok("Typed into xpath match via #go".to_string()));
}

#[test]
fn typing_under_an_xpath_by_keys() {
    let mut m = manager();
    let step = m.type_xpath("//a", "hé!", true);
    let answers = vec![
        value(found(Json::text(""))),
        Event::Done,
        failed("ignored"),
        Event::Done,
        Event::Done,
        Event::Done,
    ];
    let (actions, result) = drive(&mut m, step, answers);
    let key = |c: &str| Action::KeyChar { page: 3, text: c.to_string() };
    assert_eq!(
        actions[2..],
        [evaluate("document.activeElement.value = ''"), key("h"), key("é"), key("!")]
    );
    assert_eq!(result, Ok("Typed into xpath match at (12,-4)".to_string()));
    let step = m.type_xpath("//a", "", false);
    let answers = vec![value(found(Json::Null)), Event::Done];
    assert_eq!(
        drive(&mut m, step, answers).1,
        Ok("Typed into xpath match at (12,-4)".to_string())
    );
    let step = m.type_xpath("//a", "ab", false);
    let answers = vec![value(found(Json::Null)), Event::Done, failed("x")];
    assert_eq!(drive(&mut m, step, answers).1, cdp("x"));
}

#[test]
fn scrolling() {
    let mut m = manager();
    for (direction, script) in [
        ("up", "window.scrollBy(0, -5)"),
        ("down", "window.scrollBy(0, 5)"),
        ("left", "window.scrollBy(-5, 0)"),
        ("right", "window.scrollBy(5, 0)"),
        ("sideways", "window.scrollBy(0, 5)"),
    ] {
        let step = m.scroll(direction, 5);
        let (actions, result) = drive(&mut m, step, vec![value(Json::Null)]);
        assert_eq!(actions, vec![evaluate(script)]);
        assert_eq!(result, Ok(()));
    }
}

#[test]
fn bounds_of_an_element() {
    let mut m = manager();
    let four = || vec![Json::number(1), Json::number(2), Json::number(3), Json::number(4)];
    let step = m.get_element_bounds("#a");
    assert_eq!(drive(&mut m, step, vec![value(Json::Array(four()))]).1, Ok(four()));
    let step = m.get_element_bounds("#a");
    assert_eq!(drive(&mut m, step, vec![value(Json::Null)]).1, not_found("#a"));
    let step = m.get_element_bounds("#a");
    assert_eq!(drive(&mut m, step, vec![value(Json::Array(vec![]))]).1, not_found("#a"));
}

#[test]
fn choosing_an_option() {
    let mut m = manager();
    let step = m.select_option("#a", "it's");
    let (actions, result) = drive(&mut m, step, vec![value(Json::Null)]);
    assert_eq!(
        actions,
        vec![evaluate(
            "document.querySelector('#a').value = 'it\\'s'; \n               document.querySelector('#a').dispatchEvent(new Event('change'));"
        )]
    );
    assert_eq!(result, Ok(()));
}

#[test]
fn filling_a_form() {
    let mut m = manager();
    let data = object(vec![
        ("name", Json::text("O'Neil")),
        ("age", Json::number(3)),
        ("city", Json::text("x")),
    ]);
    let step = m.fill_form("#f", &data);
    let (actions, result) = drive(&mut m, step, vec![failed("ignored"), value(Json::Null)]);
    assert_eq!(
        actions,
        vec![
            evaluate(&scripts::fill_field_script("#f", "name", "O'Neil")),
            evaluate(&scripts::fill_field_script("#f", "city", "x")),
        ]
    );
    assert_eq!(result, Ok(()));
    let step = m.fill_form("#f", &Json::Null);
    assert_eq!(drive(&mut m, step, vec![]).1, Ok(()));
    let mut empty = BrowserManager::new();
    let step = empty.fill_form("#f", &data);
    assert_eq!(drive(&mut empty, step, vec![]).1, Ok(()));
}

#[test]
fn pages_are_given_time_to_settle() {
    let mut m = manager();
    let step = m.submit_form("#f");
    let (actions, result) = drive(&mut m, step, vec![value(Json::Null), Event::Done]);
    assert_eq!(
        actions,
        vec![evaluate("document.querySelector('#f')?.submit()"), Action::Sleep { ms: 500 }]
    );
    assert_eq!(result, Ok(()));
    let step = m.go_back();
    let (actions, _) = drive(&mut m, step, vec![value(Json::Null), Event::Done]);
    assert_eq!(actions, vec![evaluate("window.history.back()"), Action::Sleep { ms: 500 }]);
    let step = m.go_forward();
    let (actions, _) = drive(&mut m, step, vec![value(Json::Null), Event::Done]);
    assert_eq!(actions, vec![evaluate("window.history.forward()"), Action::Sleep { ms: 500 }]);
    let step = m.reload();
    let (actions, _) = drive(&mut m, step, vec![value(Json::Null), Event::Done]);
    assert_eq!(actions, vec![evaluate("window.location.reload()"), Action::Sleep { ms: 1000 }]);
    let step = m.reload();
    assert_eq!(drive(&mut m, step, vec![failed("x")]).1, cdp("x"));
    let step = m.wait_network_idle(6000);
    let (actions, _) = drive(&mut m, step, vec![Event::Done]);
    assert_eq!(actions, vec![Action::Sleep { ms: 5000 }]);
    let step = m.wait_network_idle(20);
    let (actions, _) = drive(&mut m, step, vec![Event::Done]);
    assert_eq!(actions, vec![Action::Sleep { ms: 20 }]);
}

#[test]
fn injecting_a_script() {
    let mut m = manager();
    let step = m.inject_script("x = 1");
    let (actions, result) = drive(&mut m, step, vec![value(Json::Null)]);
    assert_eq!(actions, vec![evaluate(&scripts::enclosed_script("x = 1"))]);
    assert_eq!(result, Ok(()));
}

fn mock() -> RouteAction {
    RouteAction::Mock {
        status: 404,
        content_type: "a\"b".to_string(),
        body: "q\"\\\n\u{1}é".to_string(),
    }
}

#[test]
fn adding_routes() {
    let mut m = manager();
    let step = m.add_route("/x\"".to_string(), mock());
    let (actions, result) = drive(&mut m, step, vec![value(Json::text("installed"))]);
    let rules = "[{\"pattern\":\"/x\\\"\",\"action\":{\"type\":\"mock\",\"status\":404,\"contentType\":\"a\\\"b\",\"body\":\"q\\\"\\\\\\n\\u0001é\"}}]";
    assert_eq!(actions, vec![evaluate(&scripts::interception_script(rules))]);
    assert_eq!(
        result,
        Ok("Route added: /x\" (Mock { status: 404, content_type: \"a\\\"b\", body: \"q\\\"\\\\\\n\\u{1}é\" }), 1 total routes".to_string())
    );
    let step = m.add_route("/y".to_string(), RouteAction::Block);
    let (actions, result) = drive(&mut m, step, vec![value(Json::Null)]);
    match &actions[0] {
        Action::Evaluate { script, .. } => {
            assert!(script.contains(",{\"pattern\":\"/y\",\"action\":{\"type\":\"block\"}}]"));
        }
        _ => panic!("no script"),
    }
    assert_eq!(result, Ok("Route added: /y (Block), 2 total routes".to_string()));
    let step = m.add_route("/z".to_string(), RouteAction::Log);
    assert_eq!(drive(&mut m, step, vec![failed("x")]).1, cdp("x"));
    let listed = |pattern: &str, action: &str| {
        object(vec![("pattern", Json::text(pattern)), ("action", Json::text(action))])
    };
    assert_eq!(
        m.list_routes(),
        vec![listed("/x\"", "mock(404; a\"b)"), listed("/y", "block"), listed("/z", "log")]
    );
}

#[test]
fn reports_on_routes() {
    assert_eq!(
        show_mock(200, "\"text/plain\"", "\"\""),
        "Mock { status: 200, content_type: \"text/plain\", body: \"\" }"
    );
    assert_eq!(report_added("p", "Log", 3), "Route added: p (Log), 3 total routes");
}

#[test]
fn removing_routes() {
    let mut m = manager();
    for (pattern, action) in [("/a", RouteAction::Block), ("/b", RouteAction::Log), ("/a", mock())] {
        let step = m.add_route(pattern.to_string(), action);
        drive(&mut m, step, vec![value(Json::Null)]).1.unwrap();
    }
    assert_eq!(
        m.remove_route("/a"),
        Ok("Removed 2 route(s) matching '/a', 1 remaining".to_string())
    );
    let left = object(vec![("pattern", Json::text("/b")), ("action", Json::text("log"))]);
    assert_eq!(m.list_routes(), vec![left]);
    assert_eq!(
        m.remove_route("/a"),
        Ok("Removed 0 route(s) matching '/a', 1 remaining".to_string())
    );
}

#[test]
fn intercepted_requests() {
    let mut m = manager();
    let step = m.add_route("/a".to_string(), RouteAction::Log);
    drive(&mut m, step, vec![value(Json::Null)]).1.unwrap();
    let step = m.get_intercepted_requests();
    let (actions, result) = drive(&mut m, step, vec![value(Json::text("[]"))]);
    assert_eq!(actions, vec![evaluate("JSON.stringify(window.__mcp_intercepted || [])")]);
    assert_eq!(result, Ok(Json::text("[]")));
    let step = m.clear_intercepted();
    let (actions, _) = drive(&mut m, step, vec![value(Json::Null)]);
    assert_eq!(actions, vec![evaluate("window.__mcp_intercepted = []")]);
    let step = m.disable_interception();
    let (actions, result) = drive(&mut m, step, vec![value(Json::Null)]);
    assert_eq!(
        actions,
        vec![evaluate(scripts::DISABLE_INTERCEPTION)]
    );
    for (kept, put_back) in [
        ("fetch: origFetch", "window.fetch = originals.fetch;"),
        ("open: origXHROpen", "XMLHttpRequest.prototype.open = originals.open;"),
        ("send: origXHRSend", "XMLHttpRequest.prototype.send = originals.send;"),
    ] {
        assert!(scripts::INTERCEPTION_TAIL.contains(kept));
        assert!(scripts::DISABLE_INTERCEPTION.contains(put_back));
    }
    assert_eq!(result, Ok("Interception disabled, all routes cleared".to_string()));
    assert_eq!(m.list_routes(), vec![]);
}

#[test]
fn quoted_bodies_keep_to_one_line() {
    let mut m = manager();
    let body: String = (0u8..0x30).map(|b| b as char).collect();
    let action = RouteAction::Mock { status: 200, content_type: String::new(), body: body.clone() };
    let step = m.add_route("/q".to_string(), action);
    let (actions, _) = drive(&mut m, step, vec![value(Json::Null)]);
    match &actions[0] {
        Action::Evaluate { script, .. } => {
            let start = script.find("\"body\":").unwrap() + 7;
            let rest = &script[start..];
            let end = rest.find("}}]").unwrap();
            let quoted = &rest[..end];
            assert!(quoted.chars().all(|c| c >= ' '));
            assert_eq!(serde_json::from_str::<String>(quoted).unwrap(), body);
        }
        _ => panic!("no script"),
    }
}
