//! Sessions, tabs, contexts and traces of a manager.

use browser_mcp::browser::BrowserManager;
use browser_mcp::error::BrowserError;
use browser_mcp::json::Json;
use browser_mcp::process::ProcessProbe;
use browser_mcp::step::{Action, Event, Operation, Step};

fn object(fields: Vec<(&str, Json)>) -> Json {
    let mut members: Vec<(String, Json)> = Vec::new();
    for (name, value) in fields {
        members.push((name.to_string(), value));
    }
    Json::Object(members)
}

fn text(s: &str) -> Event {
    Event::Text(s.to_string())
}

fn failed(s: &str) -> Event {
    Event::Failed(s.to_string())
}

fn cdp<T>(s: &str) -> Result<T, BrowserError> {
    Err(BrowserError::Cdp(s.to_string()))
}

/// Runs an operation to its end on given answers; every answer has to be asked for.
fn drive<P: Operation>(
    manager: &mut BrowserManager,
    first: Step<P, P::Output>,
    answers: Vec<Event>,
) -> (Vec<Action>, Result<P::Output, BrowserError>) {
    let mut actions = Vec::new();
    let mut step = first;
    let mut answers = answers.into_iter();
    loop {
        match step {
            Step::Ask(action, pending) => {
                actions.push(action);
                let event = answers.next().unwrap();
                step = pending.resume(manager, event);
            }
            Step::Done(result) => {
                assert!(answers.next().is_none());
                return (actions, result);
            }
        }
    }
}

fn launched(pages: &[u64]) -> BrowserManager {
    let mut manager = BrowserManager::new();
    let step = manager.launch(true, None);
    let (_, result) = drive(&mut manager, step, vec![Event::Done, Event::Page(pages[0])]);
    assert_eq!(result, Ok(()));
    for page in &pages[1..] {
        let step = manager.new_page();
        assert_eq!(drive(&mut manager, step, vec![Event::Page(*page)]).1, Ok(()));
    }
    manager
}

fn launch_action(headless: bool) -> Action {
    let mut arguments: Vec<String> = Vec::new();
    if headless {
        arguments.push("--headless=new".to_string());
    }
    for flag in [
        "--disable-blink-features=AutomationControlled",
        "--no-first-run",
        "--no-default-browser-check",
    ] {
        arguments.push(flag.to_string());
    }
    Action::Launch { arguments }
}

fn blank() -> Action {
    Action::NewPage { url: "about:blank".to_string() }
}

fn status(active: bool, headless: bool, url: &str, tabs: u128, tab: u128) -> Json {
    object(vec![
        ("active", Json::Bool(active)),
        ("headless", Json::Bool(headless)),
        ("current_url", Json::text(url)),
        ("tab_count", Json::number(tabs)),
        ("active_tab", Json::number(tab)),
    ])
}

#[test]
fn a_new_manager_has_no_browser() {
    let mut manager = BrowserManager::new();
    assert_eq!(manager.status(), status(false, true, "", 0, 0));
    assert_eq!(manager.page(), Err(BrowserError::NoPage));
    let step = manager.new_page();
    assert_eq!(drive(&mut manager, step, vec![]).1, Err(BrowserError::NotLaunched));
    let step = manager.create_context("a", None);
    assert_eq!(drive(&mut manager, step, vec![]).1, Err(BrowserError::NotLaunched));
    let step = manager.is_alive();
    assert_eq!(drive(&mut manager, step, vec![]).1, Ok(false));
}

#[test]
fn launch_opens_one_page() {
    let mut manager = BrowserManager::new();
    let step = manager.launch(false, None);
    let (actions, result) = drive(&mut manager, step, vec![Event::Done, Event::Page(4)]);
    assert_eq!(actions, vec![launch_action(false), blank()]);
    assert_eq!(result, Ok(()));
    assert_eq!(manager.status(), status(true, false, "", 1, 0));
    assert_eq!(manager.page(), Ok(4));
}

#[test]
fn a_launch_that_fails_changes_nothing() {
    let mut manager = BrowserManager::new();
    let step = manager.launch(false, Some("P".to_string()));
    assert_eq!(drive(&mut manager, step, vec![failed("no chrome")]).1, cdp("no chrome"));
    let step = manager.launch(false, None);
    assert_eq!(drive(&mut manager, step, vec![Event::Done, failed("no page")]).1, cdp("no page"));
    assert_eq!(manager.status(), status(false, true, "", 0, 0));
}

#[test]
fn attach_takes_the_pages_over() {
    let mut manager = BrowserManager::new();
    let step = manager.attach(9222);
    let answers = vec![Event::Done, Event::Pages(vec![7, 8]), text("https://a.test/")];
    let (actions, result) = drive(&mut manager, step, answers);
    assert_eq!(
        actions,
        vec![
            Action::Connect { url: "http://localhost:9222".to_string() },
            Action::ListPages,
            Action::PageUrl { page: 7 },
        ]
    );
    assert_eq!(result, Ok("https://a.test/".to_string()));
    assert_eq!(manager.status(), status(true, false, "https://a.test/", 2, 0));
}

#[test]
fn attach_opens_a_page_where_there_is_none() {
    let mut manager = BrowserManager::new();
    let step = manager.attach(1);
    let answers = vec![Event::Done, Event::Pages(vec![]), Event::Page(9), failed("gone")];
    let (actions, result) = drive(&mut manager, step, answers);
    assert_eq!(actions[2], blank());
    assert_eq!(actions[3], Action::PageUrl { page: 9 });
    assert_eq!(result, Ok("".to_string()));
    assert_eq!(manager.page(), Ok(9));
}

#[test]
fn an_attachment_that_fails_changes_nothing() {
    let mut manager = BrowserManager::new();
    let step = manager.attach(1);
    assert_eq!(
        drive(&mut manager, step, vec![failed("refused")]).1,
        cdp("Connect to http://localhost:1 failed: refused")
    );
    let step = manager.attach(1);
    assert_eq!(drive(&mut manager, step, vec![Event::Done, failed("x")]).1, cdp("x"));
    assert_eq!(manager.status(), status(false, true, "", 0, 0));
}

#[test]
fn close_gives_the_browser_up() {
    let mut manager = launched(&[1, 2]);
    assert_eq!(manager.close(), Ok(()));
    assert_eq!(manager.page(), Err(BrowserError::NoPage));
    assert_eq!(manager.status(), status(false, true, "", 0, 0));
    let step = manager.new_page();
    assert_eq!(drive(&mut manager, step, vec![]).1, Err(BrowserError::NotLaunched));
}

#[test]
fn a_browser_that_answers_is_left_alone() {
    let mut manager = launched(&[1, 2]);
    let step = manager.is_alive();
    assert_eq!(drive(&mut manager, step, vec![text("about:blank")]).1, Ok(true));
    let step = manager.is_alive();
    assert_eq!(drive(&mut manager, step, vec![failed("gone")]).1, Ok(false));
    let step = manager.ensure_alive();
    let (actions, result) = drive(&mut manager, step, vec![text("about:blank")]);
    assert_eq!(actions, vec![Action::PageUrl { page: 2 }]);
    assert_eq!(result, Ok(()));
    assert_eq!(manager.status(), status(true, true, "", 2, 1));
}

#[test]
fn a_browser_that_crashed_is_launched_again() {
    let mut manager = BrowserManager::new();
    let step = manager.launch(false, Some("P".to_string()));
    drive(&mut manager, step, vec![Event::Done, Event::Page(1)]).1.unwrap();
    let step = manager.ensure_alive();
    let answers = vec![failed("gone"), Event::Done, Event::Page(5)];
    let (actions, result) = drive(&mut manager, step, answers);
    assert_eq!(actions, vec![Action::PageUrl { page: 1 }, launch_action(false), blank()]);
    assert_eq!(result, Ok(()));
    assert_eq!(manager.page(), Ok(5));
    let step = manager.ensure_alive();
    let answers = vec![failed("gone"), failed("no chrome")];
    assert_eq!(drive(&mut manager, step, answers).1, cdp("no chrome"));
    assert_eq!(manager.status(), status(false, false, "", 0, 0));
}

#[test]
fn without_a_page_a_browser_is_launched_at_once() {
    let mut manager = BrowserManager::new();
    let step = manager.ensure_alive();
    let (actions, result) = drive(&mut manager, step, vec![Event::Done, Event::Page(5)]);
    assert_eq!(actions, vec![launch_action(true), blank()]);
    assert_eq!(result, Ok(()));
    assert_eq!(manager.page(), Ok(5));
}

fn version() -> Event {
    Event::Value(object(vec![("Browser", Json::text("Chrome/1"))]))
}

fn alive(yes: bool) -> Event {
    Event::Probe(ProcessProbe::ProcEntry(yes))
}

#[test]
fn debug_launch_without_waiting() {
    let mut manager = BrowserManager::new();
    let step = BrowserManager::debug_launch(9222, Some("https://a.test"), false);
    let answers = vec![
        text("L"),
        Event::Flag(false),
        Event::Flag(true),
        Event::Process(77),
    ];
    let (actions, result) = drive(&mut manager, step, answers);
    let program = "C:\\Program Files (x86)\\Google\\Chrome\\Application\\chrome.exe";
    assert_eq!(
        actions,
        vec![
            Action::ReadVariable { name: "LOCALAPPDATA".to_string() },
            Action::CheckPath {
                path: "C:\\Program Files\\Google\\Chrome\\Application\\chrome.exe".to_string()
            },
            Action::CheckPath { path: program.to_string() },
            Action::StartProcess {
                program: program.to_string(),
                arguments: vec![
                    "--remote-debugging-port=9222".to_string(),
                    "--no-first-run".to_string(),
                    "--no-default-browser-check".to_string(),
                    "https://a.test".to_string(),
                ],
            },
        ]
    );
    assert_eq!(
        result,
        Ok("Chrome launched with debug port 9222. URL: https://a.test. Use browser_attach(9222) to connect.".to_string())
    );
}

#[test]
fn debug_launch_waits_for_the_port() {
    let mut manager = BrowserManager::new();
    let step = BrowserManager::debug_launch(80, None, true);
    let answers = vec![
        failed("not set"),
        Event::Flag(false),
        Event::Flag(false),
        Event::Flag(true),
        Event::Process(77),
        Event::Done,
        Event::Done,
        alive(true),
        Event::Millis(0),
        failed("refused"),
        Event::Done,
        alive(true),
        Event::Millis(9999),
        version(),
        Event::Millis(10400),
    ];
    let (actions, result) = drive(&mut manager, step, answers);
    assert_eq!(
        actions[3],
        Action::CheckPath { path: "\\Google\\Chrome\\Application\\chrome.exe".to_string() }
    );
    assert_eq!(
        actions[5..],
        [
            Action::PrepareClient { timeout_ms: 500 },
            Action::StartTimer,
            Action::ProbeProcess { pid: 77 },
            Action::ReadTimer,
            Action::FetchJson { url: "http://localhost:80/json/version".to_string() },
            Action::Sleep { ms: 150 },
            Action::ProbeProcess { pid: 77 },
            Action::ReadTimer,
            Action::FetchJson { url: "http://localhost:80/json/version".to_string() },
            Action::ReadTimer,
        ]
    );
    assert_eq!(
        result,
        Ok("Chrome launched with debug port 80 (CDP ready in 10400ms). URL: about:blank. Use browser_attach(80) to connect.".to_string())
    );
}

fn debug_failure(tail: Vec<Event>) -> Result<String, BrowserError> {
    let mut manager = BrowserManager::new();
    let step = BrowserManager::debug_launch(80, None, true);
    let mut answers = vec![text("L"), Event::Flag(true)];
    answers.extend(tail);
    drive(&mut manager, step, answers).1
}

fn process_error(message: &str) -> Result<String, BrowserError> {
    Err(BrowserError::ProcessError(message.to_string()))
}

#[test]
fn debug_launch_fails() {
    let mut manager = BrowserManager::new();
    let step = BrowserManager::debug_launch(80, None, true);
    let answers = vec![text("L"), Event::Flag(false), Event::Flag(false), Event::Flag(false)];
    assert_eq!(drive(&mut manager, step, answers).1, process_error("Chrome not found"));
    assert_eq!(
        debug_failure(vec![failed("denied")]),
        process_error("Failed to launch Chrome: denied")
    );
    assert_eq!(
        debug_failure(vec![Event::Process(5), failed("tls")]),
        process_error("HTTP client error: tls")
    );
    let started = || vec![Event::Process(5), Event::Done, Event::Done];
    let mut died = started();
    died.extend(vec![alive(false), Event::Millis(20)]);
    assert_eq!(
        debug_failure(died),
        process_error("Chrome process (pid 5) died before CDP was ready on port 80 (after 20ms)")
    );
    let mut late = started();
    late.extend(vec![alive(false), Event::Millis(10000)]);
    assert_eq!(
        debug_failure(late),
        Err(BrowserError::Timeout(
            "Chrome did not start CDP on port 80 after 10000ms (process alive: false)".to_string()
        ))
    );
}

#[test]
fn a_port_that_names_no_browser_is_asked_again() {
    let mut answers = vec![Event::Process(5), Event::Done, Event::Done];
    answers.extend(vec![alive(true), Event::Millis(20), Event::Value(object(vec![])), Event::Done]);
    answers.extend(vec![alive(true), Event::Millis(10001)]);
    assert_eq!(
        debug_failure(answers),
        Err(BrowserError::Timeout(
            "Chrome did not start CDP on port 80 after 10001ms (process alive: true)".to_string()
        ))
    );
}

#[test]
fn a_new_tab_is_active() {
    let manager = launched(&[1, 2, 3]);
    assert_eq!(manager.page(), Ok(3));
    assert_eq!(manager.status(), status(true, true, "", 3, 2));
    let mut manager = launched(&[1]);
    let step = manager.new_page();
    assert_eq!(drive(&mut manager, step, vec![failed("x")]).1, cdp("x"));
    assert_eq!(manager.status(), status(true, true, "", 1, 0));
}

#[test]
fn tabs_are_listed_in_order() {
    let mut manager = launched(&[1, 2]);
    let step = manager.list_tabs();
    let answers = vec![text("u1"), text("t1"), failed("gone"), text("t2")];
    let (actions, result) = drive(&mut manager, step, answers);
    assert_eq!(
        actions,
        vec![
            Action::PageUrl { page: 1 },
            Action::PageTitle { page: 1 },
            Action::PageUrl { page: 2 },
            Action::PageTitle { page: 2 },
        ]
    );
    let tab = |index: u128, url: &str, title: &str, active: bool| {
        object(vec![
            ("index", Json::number(index)),
            ("url", Json::text(url)),
            ("title", Json::text(title)),
            ("active", Json::Bool(active)),
        ])
    };
    assert_eq!(result, Ok(vec![tab(0, "u1", "t1", false), tab(1, "", "t2", true)]));
    let mut empty = BrowserManager::new();
    let step = empty.list_tabs();
    assert_eq!(drive(&mut empty, step, vec![]).1, Ok(vec![]));
}

#[test]
fn switching_tabs_by_index() {
    let mut manager = launched(&[1, 2]);
    assert_eq!(manager.switch_tab_by_index(0), Ok(()));
    assert_eq!(manager.page(), Ok(1));
    assert_eq!(manager.switch_tab_by_index(2), cdp("Tab index 2 out of range (0..2)"));
    assert_eq!(manager.page(), Ok(1));
}

#[test]
fn switching_tabs_by_address() {
    let mut manager = launched(&[1, 2, 3]);
    let step = manager.switch_tab_by_url("EXAMPLE");
    let answers = vec![text("https://a.test"), text("https://Example.org")];
    let (actions, result) = drive(&mut manager, step, answers);
    assert_eq!(actions, vec![Action::PageUrl { page: 1 }, Action::PageUrl { page: 2 }]);
    assert_eq!(result, Ok(1));
    assert_eq!(manager.page(), Ok(2));
    let step = manager.switch_tab_by_url("Nope");
    let answers = vec![text("a"), text("b"), text("c")];
    assert_eq!(
        drive(&mut manager, step, answers).1,
        cdp("No tab with URL containing 'Nope'")
    );
    assert_eq!(manager.page(), Ok(2));
}

#[test]
fn closing_another_tab_keeps_the_active_page() {
    for (active, closed) in [(0usize, 1usize), (0, 2), (1, 0), (1, 2), (2, 0), (2, 1)] {
        let mut manager = launched(&[10, 11, 12]);
        manager.switch_tab_by_index(active).unwrap();
        let before = manager.page();
        let step = manager.close_tab(closed);
        let (actions, result) = drive(&mut manager, step, vec![Event::Done]);
        assert_eq!(actions, vec![Action::ClosePage { page: 10 + closed as u64 }]);
        assert_eq!(result, Ok(()));
        assert_eq!(manager.page(), before);
    }
}

#[test]
fn closing_the_active_tab() {
    let mut manager = launched(&[10, 11, 12]);
    manager.switch_tab_by_index(1).unwrap();
    let step = manager.close_tab(1);
    drive(&mut manager, step, vec![Event::Done]).1.unwrap();
    assert_eq!(manager.page(), Ok(12));
    let step = manager.close_tab(1);
    drive(&mut manager, step, vec![Event::Done]).1.unwrap();
    assert_eq!(manager.page(), Ok(10));
    let step = manager.close_tab(0);
    assert_eq!(drive(&mut manager, step, vec![]).1, cdp("Cannot close the last tab"));
    let step = manager.close_tab(1);
    assert_eq!(drive(&mut manager, step, vec![]).1, cdp("Tab index 1 out of range (0..1)"));
    assert_eq!(manager.page(), Ok(10));
}

#[test]
fn a_tab_that_could_not_be_closed_is_gone() {
    let mut manager = launched(&[10, 11]);
    let step = manager.close_tab(0);
    assert_eq!(drive(&mut manager, step, vec![failed("busy")]).1, cdp("busy"));
    assert_eq!(manager.status(), status(true, true, "", 1, 1));
    assert_eq!(manager.page(), Err(BrowserError::NoPage));
}

fn create(manager: &mut BrowserManager, name: &str, page: u64) {
    let step = manager.create_context(name, None);
    let (actions, result) = drive(manager, step, vec![Event::Page(page)]);
    assert_eq!(actions, vec![Action::NewContextPage { url: "about:blank".to_string() }]);
    assert_eq!(result, Ok(format!("Context '{}' created at about:blank", name)));
}

fn context(name: &str, pages: u128, active: bool) -> Json {
    object(vec![
        ("name", Json::text(name)),
        ("pages", Json::number(pages)),
        ("active", Json::Bool(active)),
    ])
}

#[test]
fn a_context_is_created_aside() {
    let mut manager = launched(&[1]);
    let step = manager.create_context("work", Some("https://a.test"));
    let (actions, result) = drive(&mut manager, step, vec![Event::Page(2)]);
    assert_eq!(actions, vec![Action::NewContextPage { url: "https://a.test".to_string() }]);
    assert_eq!(result, Ok("Context 'work' created at https://a.test".to_string()));
    assert_eq!(manager.page(), Ok(1));
    assert_eq!(manager.list_contexts(), vec![context("default", 1, true), context("work", 1, false)]);
    let step = manager.create_context("other", None);
    assert_eq!(drive(&mut manager, step, vec![failed("x")]).1, cdp("x"));
    assert_eq!(manager.list_contexts().len(), 2);
}

#[test]
fn switching_contexts_and_back_changes_nothing() {
    let mut manager = launched(&[1, 2, 3]);
    manager.switch_tab_by_index(1).unwrap();
    create(&mut manager, "work", 9);
    assert_eq!(manager.switch_context("work"), Ok("Switched to context 'work'".to_string()));
    assert_eq!(manager.page(), Ok(9));
    assert_eq!(
        manager.list_contexts(),
        vec![context("work", 1, true), context("__default__", 3, false)]
    );
    for page in [1, 2, 3, 9] {
        assert!(manager.holds_page(page));
    }
    assert!(!manager.holds_page(4));
    assert_eq!(manager.switch_context("default"), Ok("Switched to context 'default'".to_string()));
    assert_eq!(manager.status(), status(true, true, "", 3, 1));
    assert_eq!(manager.page(), Ok(2));
    assert_eq!(manager.list_contexts(), vec![context("default", 3, true), context("work", 1, false)]);
}

#[test]
fn switching_between_named_contexts() {
    let mut manager = launched(&[1]);
    create(&mut manager, "a", 5);
    create(&mut manager, "b", 6);
    manager.switch_context("a").unwrap();
    manager.switch_context("b").unwrap();
    assert_eq!(manager.page(), Ok(6));
    manager.switch_context("a").unwrap();
    assert_eq!(manager.page(), Ok(5));
    manager.switch_context("__default__").unwrap();
    assert_eq!(manager.page(), Ok(1));
}

/// Where a page lives, by the request that it was opened with.
fn home(homes: &[(u64, u64)], action: &Action, fresh: u64) -> u64 {
    match action {
        Action::NewContextPage { .. } => fresh,
        Action::NewPageBeside { page, .. } => homes.iter().find(|h| h.0 == *page).unwrap().1,
        _ => 0,
    }
}

#[test]
fn contexts_never_share() {
    let mut manager = launched(&[1]);
    let mut homes = vec![(1u64, 0u64)];
    for (name, page) in [("a", 10u64), ("b", 20)] {
        let step = manager.create_context(name, None);
        let (actions, _) = drive(&mut manager, step, vec![Event::Page(page)]);
        homes.push((page, home(&homes, &actions[0], page)));
    }
    for (name, page) in [("a", 11u64), ("b", 21), ("default", 2), ("a", 12)] {
        manager.switch_context(name).unwrap();
        let step = manager.new_page();
        let (actions, _) = drive(&mut manager, step, vec![Event::Page(page)]);
        homes.push((page, home(&homes, &actions[0], page)));
    }
    assert_eq!(
        homes,
        vec![(1, 0), (10, 10), (20, 20), (11, 10), (21, 20), (2, 0), (12, 10)]
    );
}

#[test]
fn cookies_are_set_and_read_on_pages_of_the_active_context() {
    let mut manager = launched(&[1]);
    create(&mut manager, "a", 10);
    let step = manager.set_cookie("n", "v", "d");
    let (actions, _) = drive(&mut manager, step, vec![Event::Done]);
    assert!(matches!(actions[0], Action::SetCookie { page: 1, .. }));
    manager.switch_context("a").unwrap();
    let step = manager.get_cookies();
    let (actions, _) = drive(&mut manager, step, vec![Event::Cookies(vec![])]);
    assert_eq!(actions, vec![Action::ReadCookies { page: 10 }]);
}

#[test]
fn a_failed_close_leaves_a_new_tab_in_its_context() {
    let mut manager = launched(&[1]);
    create(&mut manager, "a", 10);
    manager.switch_context("a").unwrap();
    let step = manager.new_page();
    drive(&mut manager, step, vec![Event::Page(11)]).1.unwrap();
    let step = manager.close_tab(0);
    assert_eq!(drive(&mut manager, step, vec![failed("busy")]).1, cdp("busy"));
    assert_eq!(manager.page(), Err(BrowserError::NoPage));
    let step = manager.new_page();
    let (actions, _) = drive(&mut manager, step, vec![Event::Page(12)]);
    assert!(matches!(actions[0], Action::NewPageBeside { page: 11, .. }));
}

fn unknown<T>(name: &str) -> Result<T, BrowserError> {
    Err(BrowserError::ElementNotFound(format!("Context '{}' not found", name)))
}

#[test]
fn switches_that_are_refused() {
    let mut manager = launched(&[1]);
    assert_eq!(manager.switch_context("nope"), unknown("nope"));
    assert_eq!(manager.switch_context("default"), Ok("Already in default context".to_string()));
    assert_eq!(manager.switch_context("__default__"), Ok("Already in default context".to_string()));
    create(&mut manager, "a", 5);
    manager.switch_context("a").unwrap();
    assert_eq!(manager.switch_context("a"), unknown("a"));
    create(&mut manager, "a", 6);
    assert_eq!(manager.switch_context("a"), Ok("Already in context 'a'".to_string()));
    assert_eq!(manager.page(), Ok(5));
}

#[test]
fn without_the_default_context_there_is_no_way_back() {
    let mut manager = launched(&[1]);
    create(&mut manager, "a", 5);
    manager.switch_context("a").unwrap();
    let step = manager.destroy_context("__default__");
    drive(&mut manager, step, vec![Event::Done]).1.unwrap();
    assert_eq!(manager.switch_context("default"), unknown("default"));
    assert_eq!(manager.page(), Err(BrowserError::NoPage));
    assert!(manager.holds_page(5));
    assert!(!manager.holds_page(1));
    let step = manager.new_page();
    let (actions, result) = drive(&mut manager, step, vec![Event::Page(8)]);
    assert_eq!(actions, vec![Action::NewContextPage { url: "about:blank".to_string() }]);
    assert_eq!(result, Ok(()));
    assert_eq!(manager.page(), Ok(8));
}

#[test]
fn a_destroyed_context_is_gone() {
    let mut manager = launched(&[1]);
    create(&mut manager, "a", 5);
    manager.switch_context("a").unwrap();
    let step = manager.new_page();
    let (actions, result) = drive(&mut manager, step, vec![Event::Page(6)]);
    let url = "about:blank".to_string();
    assert_eq!(actions, vec![Action::NewPageBeside { page: 5, url }]);
    assert_eq!(result, Ok(()));
    manager.switch_context("default").unwrap();
    let step = manager.destroy_context("a");
    let (actions, result) = drive(&mut manager, step, vec![failed("x"), Event::Done]);
    assert_eq!(actions, vec![Action::ClosePage { page: 5 }, Action::ClosePage { page: 6 }]);
    assert_eq!(result, Ok("Context 'a' destroyed (2 pages closed)".to_string()));
    assert!(!manager.holds_page(5));
    assert_eq!(manager.switch_context("a"), unknown("a"));
    let step = manager.destroy_context("a");
    assert_eq!(drive(&mut manager, step, vec![]).1, unknown("a"));
}

#[test]
fn destroying_what_is_kept_under_the_active_name() {
    let mut manager = launched(&[1]);
    create(&mut manager, "a", 5);
    manager.switch_context("a").unwrap();
    create(&mut manager, "a", 6);
    let step = manager.destroy_context("a");
    drive(&mut manager, step, vec![Event::Done]).1.unwrap();
    assert_eq!(manager.page(), Ok(5));
    assert_eq!(manager.list_contexts()[0], context("default", 1, true));
}

fn entry(manager_url: &str) -> Json {
    object(vec![
        ("type", Json::text("trace_start")),
        ("time", Json::number(0)),
        ("url", Json::text(manager_url)),
    ])
}

fn logged(details: Option<Json>) -> Json {
    let mut fields = vec![
        ("type", Json::text("tool")),
        ("name", Json::text("click")),
        ("time", Json::number(17)),
    ];
    if let Some(d) = details {
        fields.push(("details", d));
    }
    object(fields)
}

fn start_trace(manager: &mut BrowserManager) {
    let step = manager.trace_start();
    let (_, result) = drive(manager, step, vec![Event::Value(Json::text("trace started"))]);
    assert_eq!(result, Ok("Trace recording started".to_string()));
}

fn trace(entries: Vec<Json>) -> Json {
    let count = entries.len() as u128;
    object(vec![("entries", Json::Array(entries)), ("count", Json::number(count))])
}

#[test]
fn a_trace_from_start_to_stop() {
    let mut manager = launched(&[1]);
    let step = manager.navigate("https://a.test", "load");
    drive(&mut manager, step, vec![Event::Done, Event::Done, text("A")]).1.unwrap();
    start_trace(&mut manager);
    manager.trace_log("tool", "click", 17, None);
    manager.trace_log("tool", "click", 17, Some(Json::Bool(true)));
    let step = manager.trace_stop();
    let answers = vec![
        Event::Value(Json::text("[1, {\"b\": [true, null], \"a\": \"x\"}]")),
        failed("gone"),
    ];
    let (_, result) = drive(&mut manager, step, answers);
    assert_eq!(
        result,
        Ok(trace(vec![
            entry("https://a.test"),
            logged(None),
            logged(Some(Json::Bool(true))),
            Json::number(1),
            object(vec![
                ("a", Json::text("x")),
                ("b", Json::Array(vec![Json::Bool(true), Json::Null])),
            ]),
        ]))
    );
    let step = manager.trace_stop();
    assert_eq!(drive(&mut manager, step, vec![]).1, cdp("No active trace"));
}

#[test]
fn the_page_may_give_an_array_or_nothing() {
    let mut manager = launched(&[1]);
    start_trace(&mut manager);
    let step = manager.trace_stop();
    let answers = vec![Event::Value(Json::Array(vec![Json::Null])), Event::Done];
    assert_eq!(drive(&mut manager, step, answers).1, Ok(trace(vec![entry(""), Json::Null])));
    start_trace(&mut manager);
    let step = manager.trace_stop();
    assert_eq!(
        drive(&mut manager, step, vec![Event::Value(Json::Null), Event::Done]).1,
        Ok(trace(vec![entry("")]))
    );
    start_trace(&mut manager);
    let step = manager.trace_stop();
    let answers = vec![Event::Value(Json::text("{")), Event::Done];
    assert_eq!(drive(&mut manager, step, answers).1, Ok(trace(vec![entry("")])));
    start_trace(&mut manager);
    let step = manager.trace_stop();
    let answers = vec![Event::Value(Json::text("{}")), Event::Done];
    assert_eq!(drive(&mut manager, step, answers).1, Ok(trace(vec![entry("")])));
}

#[test]
fn traces_that_are_refused() {
    let mut manager = launched(&[1]);
    start_trace(&mut manager);
    let step = manager.trace_start();
    assert_eq!(drive(&mut manager, step, vec![]).1, cdp("Trace already active"));
    let step = manager.trace_stop();
    assert_eq!(drive(&mut manager, step, vec![failed("x")]).1, cdp("x"));
    let step = manager.trace_stop();
    let answers = vec![Event::Value(Json::Null), Event::Done];
    assert_eq!(drive(&mut manager, step, answers).1, Ok(trace(vec![entry("")])));
}

#[test]
fn a_trace_counts_as_active_where_its_start_failed() {
    let mut manager = BrowserManager::new();
    let step = manager.trace_start();
    assert_eq!(drive(&mut manager, step, vec![]).1, Err(BrowserError::NoPage));
    let step = manager.trace_start();
    assert_eq!(drive(&mut manager, step, vec![]).1, cdp("Trace already active"));
    let step = manager.trace_stop();
    assert_eq!(drive(&mut manager, step, vec![]).1, Err(BrowserError::NoPage));
}

#[test]
fn nothing_is_logged_without_a_trace() {
    let mut manager = launched(&[1]);
    manager.trace_log("tool", "click", 17, None);
    start_trace(&mut manager);
    let step = manager.trace_stop();
    let answers = vec![Event::Value(Json::Null), Event::Done];
    assert_eq!(drive(&mut manager, step, answers).1, Ok(trace(vec![entry("")])));
}

#[test]
fn a_trace_is_saved() {
    let mut manager = launched(&[1]);
    start_trace(&mut manager);
    manager.trace_log("tool", "click", 17, None);
    let step = manager.trace_save("t.json");
    let answers = vec![Event::Value(Json::Null), Event::Done, Event::Done];
    let (actions, result) = drive(&mut manager, step, answers);
    let expected = r#"{
  "count": 2,
  "entries": [
    {
      "time": 0,
      "type": "trace_start",
      "url": ""
    },
    {
      "name": "click",
      "time": 17,
      "type": "tool"
    }
  ]
}"#;
    assert_eq!(
        actions[2..],
        [Action::WriteText { path: "t.json".to_string(), text: expected.to_string() }]
    );
    assert_eq!(result, Ok("Trace saved to t.json (2 entries)".to_string()));
    let step = manager.trace_save("t.json");
    assert_eq!(drive(&mut manager, step, vec![]).1, cdp("No active trace"));
}

#[test]
fn a_trace_that_cannot_be_saved() {
    let mut manager = launched(&[1]);
    start_trace(&mut manager);
    let step = manager.trace_save("t.json");
    let answers = vec![Event::Value(Json::Null), Event::Done, failed("denied")];
    assert_eq!(drive(&mut manager, step, answers).1, cdp("Failed to write trace: denied"));
    let step = manager.trace_stop();
    assert_eq!(drive(&mut manager, step, vec![]).1, cdp("No active trace"));
    start_trace(&mut manager);
    let step = manager.trace_save("t.json");
    let (actions, result) = drive(&mut manager, step, vec![failed("gone")]);
    assert_eq!(actions.len(), 1);
    assert_eq!(result, cdp("gone"));
}
