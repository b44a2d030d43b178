//! The browser process: where it is found, how it is started, whether it is alive.

use vstd::prelude::*;

use crate::text;

verus! {

/// What a look at a process gave.
#[derive(Debug, PartialEq, Eq)]
pub enum ProcessProbe {
    /// The output of `tasklist` for the process, where it could be run.
    TaskList(Option<String>),
    /// Whether the process has an entry under `/proc`.
    ProcEntry(bool),
}

impl ProcessProbe {
    /// The process is alive: `tasklist` shows its number, or `/proc` has an entry for it.
    pub open spec fn shows_alive(self, pid: u32) -> bool {
        match self {
            ProcessProbe::TaskList(Some(out)) => text::occurs(out@, text::decimal(pid as nat)),
            ProcessProbe::TaskList(None) => false,
            ProcessProbe::ProcEntry(exists) => exists,
        }
    }
}

/// Whether a process is alive, by what a look at it gave.
pub fn is_pid_alive(pid: u32, probe: &ProcessProbe) -> (alive: bool)
    ensures
        alive == probe.shows_alive(pid),
{
    match probe {
        ProcessProbe::TaskList(Some(out)) => {
            let number: String = text::decimal_text(pid as u128);
            text::contains(out.as_str(), number.as_str())
        },
        ProcessProbe::TaskList(None) => false,
        ProcessProbe::ProcEntry(exists) => *exists,
    }
}

/// The filter that makes `tasklist` show one process.
pub open spec fn task_filter(pid: u32) -> Seq<char> {
    "PID eq "@ + text::decimal(pid as nat)
}

/// The arguments that make `tasklist` show one process, without a header.
pub fn tasklist_arguments(pid: u32) -> (r: Vec<String>)
    ensures
        r.deep_view() == seq!["/FI"@, task_filter(pid), "/NH"@],
{
    let mut filter: String = "PID eq ".to_owned();
    text::push_decimal(&mut filter, pid as u128);
    let mut r: Vec<String> = Vec::new();
    r.push("/FI".to_owned());
    r.push(filter);
    r.push("/NH".to_owned());
    assert(r.deep_view() =~= seq!["/FI"@, task_filter(pid), "/NH"@]);
    r
}

/// The entry of a process under `/proc`.
pub fn proc_entry(pid: u32) -> (r: String)
    ensures
        r@ == "/proc/"@ + text::decimal(pid as nat),
{
    let mut path: String = "/proc/".to_owned();
    text::push_decimal(&mut path, pid as u128);
    path
}

/// Chrome under the program directory.
pub const CHROME_PROGRAM_FILES: &'static str = r"C:\Program Files\Google\Chrome\Application\chrome.exe";

/// Chrome under the program directory for 32-bit programs.
pub const CHROME_PROGRAM_FILES_X86: &'static str = r"C:\Program Files (x86)\Google\Chrome\Application\chrome.exe";

/// Chrome below a user's directory for application data.
pub const CHROME_BELOW_APPDATA: &'static str = r"\Google\Chrome\Application\chrome.exe";

/// Where Chrome is looked for, in this order.
pub open spec fn chrome_candidates(appdata: Option<Seq<char>>) -> Seq<Seq<char>> {
    let local: Seq<char> = match appdata {
        Some(dir) => dir,
        None => seq![],
    };
    seq![CHROME_PROGRAM_FILES@, CHROME_PROGRAM_FILES_X86@, local + CHROME_BELOW_APPDATA@]
}

/// The paths under which Chrome is looked for, in this order.
pub fn chrome_paths(appdata: &Option<String>) -> (r: Vec<String>)
    ensures
        r.deep_view() == chrome_candidates(appdata.deep_view()),
{
    let mut below: String = match appdata {
        Some(dir) => dir.clone(),
        None => String::new(),
    };
    below.append(CHROME_BELOW_APPDATA);
    let mut r: Vec<String> = Vec::new();
    r.push(CHROME_PROGRAM_FILES.to_owned());
    r.push(CHROME_PROGRAM_FILES_X86.to_owned());
    r.push(below);
    assert(r.deep_view() =~= chrome_candidates(appdata.deep_view()));
    r
}

/// The arguments of a browser started for debugging. They name no profile, so that the browser
/// is the user's own, with all logins.
pub open spec fn debug_argument_list(port: u16, url: Seq<char>) -> Seq<Seq<char>> {
    seq![
        "--remote-debugging-port="@ + text::decimal(port as nat),
        "--no-first-run"@,
        "--no-default-browser-check"@,
        url,
    ]
}

/// The arguments of a browser started for debugging.
pub fn debug_arguments(port: u16, url: &str) -> (r: Vec<String>)
    ensures
        r.deep_view() == debug_argument_list(port, url@),
{
    let mut port_flag: String = "--remote-debugging-port=".to_owned();
    text::push_decimal(&mut port_flag, port as u128);
    let mut r: Vec<String> = Vec::new();
    r.push(port_flag);
    r.push("--no-first-run".to_owned());
    r.push("--no-default-browser-check".to_owned());
    r.push(url.to_owned());
    assert(r.deep_view() =~= debug_argument_list(port, url@));
    r
}

/// A browser started for debugging is pointed to no profile but the user's own: none of the
/// arguments before the address names one.
pub proof fn lemma_own_profile(port: u16, url: Seq<char>, i: int)
    requires
        0 <= i < debug_argument_list(port, url).len() - 1,
    ensures
        !text::begins(debug_argument_list(port, url)[i], "--user-data-dir"@),
{
    reveal_strlit("--user-data-dir");
    reveal_strlit("--remote-debugging-port=");
    reveal_strlit("--no-first-run");
    reveal_strlit("--no-default-browser-check");
    let flag: Seq<char> = "--user-data-dir"@;
    let argument: Seq<char> = debug_argument_list(port, url)[i];
    assert(flag[2] == 'u');
    assert(argument[2] != 'u');
    if text::begins(argument, flag) {
        assert(argument.subrange(0, flag.len() as int)[2] == argument[2]);
    }
}

/// The arguments of a browser that the manager launches itself.
pub open spec fn launch_argument_list(headless: bool, profile: Option<Seq<char>>) -> Seq<
    Seq<char>,
> {
    let mode: Seq<Seq<char>> = if headless {
        seq!["--headless=new"@]
    } else {
        seq![]
    };
    let data: Seq<Seq<char>> = match profile {
        Some(dir) => seq!["--user-data-dir="@ + dir],
        None => seq![],
    };
    mode + data + seq![
        "--disable-blink-features=AutomationControlled"@,
        "--no-first-run"@,
        "--no-default-browser-check"@,
    ]
}

/// The arguments of a browser that the manager launches itself.
pub fn launch_arguments(headless: bool, profile: &Option<String>) -> (r: Vec<String>)
    ensures
        r.deep_view() == launch_argument_list(headless, profile.deep_view()),
{
    let mut r: Vec<String> = Vec::new();
    if headless {
        r.push("--headless=new".to_owned());
    }
    match profile {
        Some(dir) => {
            r.push("--user-data-dir=".to_owned().concat(dir.as_str()));
        },
        None => {},
    }
    r.push("--disable-blink-features=AutomationControlled".to_owned());
    r.push("--no-first-run".to_owned());
    r.push("--no-default-browser-check".to_owned());
    assert(r.deep_view() =~= launch_argument_list(headless, profile.deep_view()));
    r
}

/// How a list of tasks is asked for one process.
pub proof fn lemma_task_filter(pid: u32)
    ensures
        task_filter(pid) == "PID eq "@ + text::decimal(pid as nat),
{
}

} // verus!
