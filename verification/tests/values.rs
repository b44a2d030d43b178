//! Text, JSON values and the browser process.

use browser_mcp::error::BrowserError;
use browser_mcp::json::Json;
use browser_mcp::process::{
    chrome_paths, debug_arguments, is_pid_alive, launch_arguments, proc_entry,
    tasklist_arguments, ProcessProbe,
};
use browser_mcp::text;

fn object(fields: Vec<(&str, Json)>) -> Json {
    let mut members: Vec<(String, Json)> = Vec::new();
    for (name, value) in fields {
        members.push((name.to_string(), value));
    }
    Json::Object(members)
}

#[test]
fn decimal_notation() {
    assert_eq!(text::decimal_text(0), "0");
    assert_eq!(text::decimal_text(9), "9");
    assert_eq!(text::decimal_text(10), "10");
    assert_eq!(text::decimal_text(u128::MAX), "340282366920938463463374607431768211455");
    let mut out = String::from("x=");
    text::push_integer(&mut out, -120);
    text::push_integer(&mut out, i64::MIN);
    assert_eq!(out, "x=-120-9223372036854775808");
}

#[test]
fn numbers_are_read_back() {
    for n in [0i64, 7, -7, 1234567890, i64::MAX, i64::MIN] {
        let mut s = String::new();
        text::push_integer(&mut s, n);
        assert_eq!(Json::Number(s).as_i64(), Some(n));
    }
    for n in [0u64, 1, u64::MAX] {
        assert_eq!(Json::number(n as u128).as_u64(), Some(n));
    }
    assert_eq!(Json::number(u64::MAX as u128 + 1).as_u64(), None);
    assert_eq!(Json::number(i64::MAX as u128 + 1).as_i64(), None);
    assert_eq!(Json::Number("1.5".to_string()).as_i64(), None);
    assert_eq!(Json::Number("-1".to_string()).as_u64(), None);
    assert_eq!(Json::Text("1".to_string()).as_u64(), None);
}

#[test]
fn text_comparison() {
    assert!(text::same_text("größe", "größe"));
    assert!(!text::same_text("a", "b"));
    assert!(!text::same_text("a", "aa"));
    assert!(text::starts_with("notifications/x", "notifications/"));
    assert!(!text::starts_with("notif", "notifications/"));
    assert!(text::starts_with("abc", ""));
    assert!(text::contains("hello world", "o w"));
    assert!(text::contains("abc", ""));
    assert!(text::contains("", ""));
    assert!(!text::contains("abc", "abcd"));
    assert!(!text::contains("aab", "abb"));
    assert_eq!(text::chars_of("aß✓"), vec!['a', 'ß', '✓']);
    assert_eq!(text::char_text('✓'), "✓");
}

#[test]
fn escaping_puts_a_backslash_before_each_quote() {
    assert_eq!(text::escape("a'b''", '\''), "a\\'b\\'\\'");
    assert_eq!(text::escape("a\\'", '\''), "a\\\\'");
    assert_eq!(text::escape("a\"b", '"'), "a\\\"b");
    assert_eq!(text::escape("plain", '\''), "plain");
    assert_eq!(text::escape("", '\''), "");
    let escaped = text::escape("it's 'quoted'", '\'');
    let chars: Vec<char> = escaped.chars().collect();
    for i in 0..chars.len() {
        if chars[i] == '\'' {
            assert_eq!(chars[i - 1], '\\');
        }
    }
}

#[test]
fn escaping_tells_texts_apart() {
    let texts = ["'", "\\'", "\\", "\\\\'", "", "a'", "'a"];
    for a in texts {
        for b in texts {
            assert_eq!(a == b, text::escape(a, '\'') == text::escape(b, '\''));
        }
    }
}

#[test]
fn parsing_numbers() {
    assert_eq!(text::parse_u64("18446744073709551615"), Some(u64::MAX));
    assert_eq!(text::parse_u64("18446744073709551616"), None);
    assert_eq!(text::parse_u64(""), None);
    assert_eq!(text::parse_u64("01"), None);
    assert_eq!(text::parse_u64("1a"), None);
    assert_eq!(text::parse_i64("-9223372036854775808"), Some(i64::MIN));
    assert_eq!(text::parse_i64("-9223372036854775809"), None);
    assert_eq!(text::parse_i64("9223372036854775807"), Some(i64::MAX));
    assert_eq!(text::parse_i64("-"), None);
    assert_eq!(text::parse_i64("-0"), None);
}

#[test]
fn members_of_objects() {
    let value = object(vec![
        ("name", Json::text("x")),
        ("flag", Json::Bool(true)),
        ("n", Json::number(3)),
    ]);
    assert_eq!(value.get("flag"), Some(&Json::Bool(true)));
    assert_eq!(value.get("missing"), None);
    assert_eq!(Json::Null.get("flag"), None);
    assert_eq!(value.str_or("name", "d"), "x");
    assert_eq!(value.str_or("flag", "d"), "d");
    assert!(value.is_true("flag"));
    assert!(!value.is_true("name"));
    assert_eq!(value.i64_or_zero("n"), 3);
    assert_eq!(value.i64_or_zero("name"), 0);
    assert!(!value.is_null());
    assert!(Json::Null.is_null());
    assert_eq!(value.into_member("name"), Some(Json::text("x")));
    assert_eq!(Json::Null.into_member("name"), None);
    assert_eq!(Json::Array(vec![Json::Null]).into_array(), Some(vec![Json::Null]));
    assert_eq!(Json::Bool(true).into_array(), None);
}

#[test]
fn messages_of_errors() {
    assert_eq!(BrowserError::NotLaunched.message(), "Browser not launched");
    assert_eq!(BrowserError::NoPage.message(), "No active page");
    assert_eq!(BrowserError::Cdp("x".to_string()).message(), "CDP error: x");
    assert_eq!(BrowserError::Timeout("x".to_string()).message(), "Timeout: x");
    assert_eq!(BrowserError::ElementNotFound("x".to_string()).message(), "Element not found: x");
    assert_eq!(BrowserError::ProcessError("x".to_string()).message(), "Process error: x");
}

#[test]
fn life_of_a_process() {
    let shown = "chrome.exe                    1234 Console";
    assert!(is_pid_alive(1234, &ProcessProbe::TaskList(Some(shown.to_string()))));
    assert!(!is_pid_alive(99, &ProcessProbe::TaskList(Some(shown.to_string()))));
    assert!(!is_pid_alive(1234, &ProcessProbe::TaskList(None)));
    assert!(is_pid_alive(1, &ProcessProbe::ProcEntry(true)));
    assert!(!is_pid_alive(1, &ProcessProbe::ProcEntry(false)));
    assert_eq!(tasklist_arguments(42), vec!["/FI", "PID eq 42", "/NH"]);
    assert_eq!(proc_entry(42), "/proc/42");
}

#[test]
fn places_of_the_browser() {
    let dir = Some("C:\\Users\\me\\Local".to_string());
    assert_eq!(
        chrome_paths(&dir),
        vec![
            "C:\\Program Files\\Google\\Chrome\\Application\\chrome.exe",
            "C:\\Program Files (x86)\\Google\\Chrome\\Application\\chrome.exe",
            "C:\\Users\\me\\Local\\Google\\Chrome\\Application\\chrome.exe",
        ]
    );
    assert_eq!(chrome_paths(&None)[2], "\\Google\\Chrome\\Application\\chrome.exe");
}

#[test]
fn arguments_of_the_browser() {
    assert_eq!(
        debug_arguments(9222, "about:blank"),
        vec![
            "--remote-debugging-port=9222",
            "--no-first-run",
            "--no-default-browser-check",
            "about:blank",
        ]
    );
    assert_eq!(
        launch_arguments(true, &Some("P".to_string())),
        vec![
            "--headless=new",
            "--user-data-dir=P",
            "--disable-blink-features=AutomationControlled",
            "--no-first-run",
            "--no-default-browser-check",
        ]
    );
    assert_eq!(launch_arguments(false, &None).len(), 3);
}
