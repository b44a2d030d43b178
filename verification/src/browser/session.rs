//! Sessions: starting a browser, connecting to one and keeping it alive.

use vstd::prelude::*;

use crate::browser::{BrowserManager, ManagerView};
use crate::error::{BrowserError, ErrorView};
use crate::process;
use crate::process::is_pid_alive;
use crate::step::{Action, ActionView, Event, Operation, PageId, Step, StepView};
use crate::text;

verus! {

/// The address that a page shows where none is asked for.
pub const BLANK: &'static str = "about:blank";

/// The variable that names the directory for application data.
pub const APPDATA_VARIABLE: &'static str = "LOCALAPPDATA";

/// How long one request to the debug port may take.
pub const FETCH_LIMIT_MS: u64 = 500;

/// How long a started browser has to open its debug port.
pub const START_LIMIT_MS: u64 = 10000;

/// How long the wait for the debug port pauses between two requests.
pub const POLL_MS: u64 = 150;

/// A browser that was started for debugging.
#[derive(Debug)]
pub struct Started<S> {
    pub port: u16,
    pub url: S,
    pub pid: u32,
}

impl DeepView for Started<String> {
    type V = Started<Seq<char>>;

    open spec fn deep_view(&self) -> Started<Seq<char>> {
        Started { port: self.port, url: self.url@, pid: self.pid }
    }
}

/// What a browser is started for debugging with.
#[derive(Debug)]
pub struct DebugOrder<S> {
    pub port: u16,
    pub url: S,
    pub wait_for_cdp: bool,
}

impl DeepView for DebugOrder<String> {
    type V = DebugOrder<Seq<char>>;

    open spec fn deep_view(&self) -> DebugOrder<Seq<char>> {
        DebugOrder { port: self.port, url: self.url@, wait_for_cdp: self.wait_for_cdp }
    }
}

/// Starts a browser for debugging.
#[derive(Debug)]
pub enum DebugLaunching<S, L> {
    /// The directory for application data is read.
    Reading { order: DebugOrder<S> },
    /// The browser is looked for under one path; `rest` are the paths to try after it.
    Looking { order: DebugOrder<S>, program: S, rest: L },
    /// The process is started.
    Starting { order: DebugOrder<S> },
    /// The client for the debug port is prepared.
    Client { started: Started<S> },
    /// The timer is started.
    Timer { started: Started<S> },
    /// The process is looked at.
    Probing { started: Started<S> },
    /// The timer is read.
    Timing { started: Started<S>, alive: bool },
    /// The debug port is asked.
    Fetching { started: Started<S> },
    /// The debug port answered, and the timer is read once more.
    Ready { started: Started<S> },
    /// The wait pauses.
    Sleeping { started: Started<S> },
}

impl DeepView for DebugLaunching<String, Vec<String>> {
    type V = DebugLaunching<Seq<char>, Seq<Seq<char>>>;

    open spec fn deep_view(&self) -> DebugLaunching<Seq<char>, Seq<Seq<char>>> {
        match self {
            DebugLaunching::Reading { order } => DebugLaunching::Reading {
                order: order.deep_view(),
            },
            DebugLaunching::Looking { order, program, rest } => DebugLaunching::Looking {
                order: order.deep_view(),
                program: program@,
                rest: rest.deep_view(),
            },
            DebugLaunching::Starting { order } => DebugLaunching::Starting {
                order: order.deep_view(),
            },
            DebugLaunching::Client { started } => DebugLaunching::Client {
                started: started.deep_view(),
            },
            DebugLaunching::Timer { started } => DebugLaunching::Timer {
                started: started.deep_view(),
            },
            DebugLaunching::Probing { started } => DebugLaunching::Probing {
                started: started.deep_view(),
            },
            DebugLaunching::Timing { started, alive } => DebugLaunching::Timing {
                started: started.deep_view(),
                alive: *alive,
            },
            DebugLaunching::Fetching { started } => DebugLaunching::Fetching {
                started: started.deep_view(),
            },
            DebugLaunching::Ready { started } => DebugLaunching::Ready {
                started: started.deep_view(),
            },
            DebugLaunching::Sleeping { started } => DebugLaunching::Sleeping {
                started: started.deep_view(),
            },
        }
    }
}

/// The address that a page shows: the one that is asked for, or none at all.
pub open spec fn address_or_blank(url: Option<Seq<char>>) -> Seq<char> {
    match url {
        Some(u) => u,
        None => BLANK@,
    }
}

/// The address of a debug port.
pub open spec fn debug_address(port: u16) -> Seq<char> {
    "http://localhost:"@ + text::decimal(port as nat)
}

fn debug_address_text(port: u16) -> (r: String)
    ensures
        r@ == debug_address(port),
{
    let mut r: String = "http://localhost:".to_owned();
    text::push_decimal(&mut r, port as u128);
    r
}

/// The end of a report on a started browser.
pub open spec fn hint(port: u16, url: Seq<char>) -> Seq<char> {
    ". URL: "@ + url + ". Use browser_attach("@ + text::decimal(port as nat) + ") to connect."@
}

fn push_hint(out: &mut String, port: u16, url: &str)
    ensures
        final(out)@ == old(out)@ + hint(port, url@),
{
    let ghost start: Seq<char> = out@;
    out.append(". URL: ");
    out.append(url);
    out.append(". Use browser_attach(");
    text::push_decimal(out, port as u128);
    out.append(") to connect.");
    assert(out@ =~= start + hint(port, url@));
}

/// What is reported of a browser that was started and not waited for.
pub open spec fn launched_report(port: u16, url: Seq<char>) -> Seq<char> {
    "Chrome launched with debug port "@ + text::decimal(port as nat) + hint(port, url)
}

/// What is reported of a browser whose debug port answers.
pub open spec fn ready_report(port: u16, url: Seq<char>, ms: u128) -> Seq<char> {
    "Chrome launched with debug port "@ + text::decimal(port as nat) + " (CDP ready in "@
        + text::decimal(ms as nat) + "ms)"@ + hint(port, url)
}

/// The message where the debug port did not answer in time.
pub open spec fn late_message(port: u16, ms: u128, alive: bool) -> Seq<char> {
    "Chrome did not start CDP on port "@ + text::decimal(port as nat) + " after "@ + text::decimal(
        ms as nat,
    ) + "ms (process alive: "@ + (if alive {
        "true"@
    } else {
        "false"@
    }) + ")"@
}

/// The message where the process ended before the debug port answered.
pub open spec fn died_message(pid: u32, port: u16, ms: u128) -> Seq<char> {
    "Chrome process (pid "@ + text::decimal(pid as nat)
        + ") died before CDP was ready on port "@ + text::decimal(port as nat) + " (after "@
        + text::decimal(ms as nat) + "ms)"@
}

fn launched_text(port: u16, url: &str) -> (r: String)
    ensures
        r@ == launched_report(port, url@),
{
    let mut r: String = "Chrome launched with debug port ".to_owned();
    text::push_decimal(&mut r, port as u128);
    push_hint(&mut r, port, url);
    r
}

fn ready_text(port: u16, url: &str, ms: u128) -> (r: String)
    ensures
        r@ == ready_report(port, url@, ms),
{
    let mut r: String = "Chrome launched with debug port ".to_owned();
    text::push_decimal(&mut r, port as u128);
    r.append(" (CDP ready in ");
    text::push_decimal(&mut r, ms);
    r.append("ms)");
    push_hint(&mut r, port, url);
    r
}

fn late_text(port: u16, ms: u128, alive: bool) -> (r: String)
    ensures
        r@ == late_message(port, ms, alive),
{
    let mut r: String = "Chrome did not start CDP on port ".to_owned();
    text::push_decimal(&mut r, port as u128);
    r.append(" after ");
    text::push_decimal(&mut r, ms);
    r.append("ms (process alive: ");
    r.append(if alive { "true" } else { "false" });
    r.append(")");
    r
}

fn died_text(pid: u32, port: u16, ms: u128) -> (r: String)
    ensures
        r@ == died_message(pid, port, ms),
{
    let mut r: String = "Chrome process (pid ".to_owned();
    text::push_decimal(&mut r, pid as u128);
    r.append(") died before CDP was ready on port ");
    text::push_decimal(&mut r, port as u128);
    r.append(" (after ");
    text::push_decimal(&mut r, ms);
    r.append("ms)");
    r
}

/// A variable that was read; none where it is not set.
pub open spec fn variable(event: Event) -> Option<Seq<char>> {
    match event {
        Event::Text(t) => Some(t@),
        _ => None,
    }
}

/// What a look at a process shows; an event of another kind shows nothing alive.
pub open spec fn alive(pid: u32, event: Event) -> bool {
    match event {
        Event::Probe(probe) => probe.shows_alive(pid),
        _ => false,
    }
}

/// Whether the debug port told which browser it belongs to.
pub open spec fn names_browser(event: Event) -> bool {
    match event {
        Event::Value(body) => body.deep_view().get("Browser"@) is Some,
        _ => false,
    }
}

impl DebugLaunching<Seq<char>, Seq<Seq<char>>> {
    /// The first step of a start for debugging.
    pub open spec fn start(order: DebugOrder<Seq<char>>) -> StepView<
        DebugLaunching<Seq<char>, Seq<Seq<char>>>,
        Seq<char>,
    > {
        StepView::Ask(
            ActionView::ReadVariable { name: APPDATA_VARIABLE@ },
            DebugLaunching::Reading { order },
        )
    }

    /// The look at the first of the paths, or the end where there is none left.
    pub open spec fn look(
        order: DebugOrder<Seq<char>>,
        paths: Seq<Seq<char>>,
    ) -> StepView<DebugLaunching<Seq<char>, Seq<Seq<char>>>, Seq<char>> {
        if paths.len() > 0 {
            StepView::Ask(
                ActionView::CheckPath { path: paths[0] },
                DebugLaunching::Looking { order, program: paths[0], rest: paths.skip(1) },
            )
        } else {
            StepView::Done(Err(ErrorView::ProcessError("Chrome not found"@)))
        }
    }

    /// What comes after an event.
    pub open spec fn next(self, event: Event) -> StepView<
        DebugLaunching<Seq<char>, Seq<Seq<char>>>,
        Seq<char>,
    > {
        match self {
            DebugLaunching::Reading { order } => Self::look(
                order,
                process::chrome_candidates(variable(event)),
            ),
            DebugLaunching::Looking { order, program, rest } => if event.flag() {
                StepView::Ask(
                    ActionView::StartProcess {
                        program,
                        arguments: process::debug_argument_list(order.port, order.url),
                    },
                    DebugLaunching::Starting { order },
                )
            } else {
                Self::look(order, rest)
            },
            DebugLaunching::Starting { order } => match event {
                Event::Process(pid) => if order.wait_for_cdp {
                    StepView::Ask(
                        ActionView::PrepareClient { timeout_ms: FETCH_LIMIT_MS },
                        DebugLaunching::Client {
                            started: Started { port: order.port, url: order.url, pid },
                        },
                    )
                } else {
                    StepView::Done(Ok(launched_report(order.port, order.url)))
                },
                Event::Failed(m) => StepView::Done(
                    Err(ErrorView::ProcessError("Failed to launch Chrome: "@ + m@)),
                ),
                _ => StepView::Done(Err(ErrorView::ProcessError("Failed to launch Chrome: "@))),
            },
            DebugLaunching::Client { started } => match event.failure() {
                Some(m) => StepView::Done(
                    Err(ErrorView::ProcessError("HTTP client error: "@ + m)),
                ),
                None => StepView::Ask(ActionView::StartTimer, DebugLaunching::Timer { started }),
            },
            DebugLaunching::Timer { started } | DebugLaunching::Sleeping {
                started,
            } => StepView::Ask(
                ActionView::ProbeProcess { pid: started.pid },
                DebugLaunching::Probing { started },
            ),
            DebugLaunching::Probing { started } => StepView::Ask(
                ActionView::ReadTimer,
                DebugLaunching::Timing { started, alive: alive(started.pid, event) },
            ),
            DebugLaunching::Timing { started, alive } => {
                let ms: u128 = event.millis();
                if ms >= START_LIMIT_MS {
                    StepView::Done(Err(ErrorView::Timeout(late_message(started.port, ms, alive))))
                } else if !alive {
                    StepView::Done(
                        Err(
                            ErrorView::ProcessError(died_message(started.pid, started.port, ms)),
                        ),
                    )
                } else {
                    StepView::Ask(
                        ActionView::FetchJson {
                            url: debug_address(started.port) + "/json/version"@,
                        },
                        DebugLaunching::Fetching { started },
                    )
                }
            },
            DebugLaunching::Fetching { started } => if names_browser(event) {
                StepView::Ask(ActionView::ReadTimer, DebugLaunching::Ready { started })
            } else {
                StepView::Ask(
                    ActionView::Sleep { ms: POLL_MS },
                    DebugLaunching::Sleeping { started },
                )
            },
            DebugLaunching::Ready { started } => StepView::Done(
                Ok(ready_report(started.port, started.url, event.millis())),
            ),
        }
    }
}

/// The look at the first of the paths, or the end where there is none left.
fn look(order: DebugOrder<String>, paths: Vec<String>) -> (step: Step<
    DebugLaunching<String, Vec<String>>,
    String,
>)
    ensures
        step.deep_view() == DebugLaunching::look(order.deep_view(), paths.deep_view()),
{
    let mut rest: Vec<String> = paths;
    assert(paths.deep_view().len() == paths@.len());
    if rest.len() > 0 {
        let program: String = rest.remove(0);
        assert(rest.deep_view() =~= paths.deep_view().skip(1));
        let path: String = program.clone();
        Step::Ask(
            Action::CheckPath { path },
            DebugLaunching::Looking { order, program, rest },
        )
    } else {
        Step::Done(Err(BrowserError::ProcessError("Chrome not found".to_owned())))
    }
}

impl Operation for DebugLaunching<String, Vec<String>> {
    type Output = String;

    fn resume(self, manager: &mut BrowserManager, event: Event) -> (step: Step<Self, String>)
        ensures
            final(manager)@ == old(manager)@,
            step.deep_view() == self.deep_view().next(event),
    {
        match self {
            DebugLaunching::Reading { order } => {
                let appdata: Option<String> = match event {
                    Event::Text(t) => Some(t),
                    _ => None,
                };
                look(order, process::chrome_paths(&appdata))
            },
            DebugLaunching::Looking { order, program, rest } => if event.is_flag_set() {
                let arguments: Vec<String> = process::debug_arguments(
                    order.port,
                    order.url.as_str(),
                );
                Step::Ask(
                    Action::StartProcess { program, arguments },
                    DebugLaunching::Starting { order },
                )
            } else {
                look(order, rest)
            },
            DebugLaunching::Starting { order } => match event {
                Event::Process(pid) => if order.wait_for_cdp {
                    let started: Started<String> = Started {
                        port: order.port,
                        url: order.url,
                        pid,
                    };
                    Step::Ask(
                        Action::PrepareClient { timeout_ms: FETCH_LIMIT_MS },
                        DebugLaunching::Client { started },
                    )
                } else {
                    Step::Done(Ok(launched_text(order.port, order.url.as_str())))
                },
                Event::Failed(m) => Step::Done(
                    Err(
                        BrowserError::ProcessError(
                            "Failed to launch Chrome: ".to_owned().concat(m.as_str()),
                        ),
                    ),
                ),
                _ => Step::Done(
                    Err(BrowserError::ProcessError("Failed to launch Chrome: ".to_owned())),
                ),
            },
            DebugLaunching::Client { started } => match event {
                Event::Failed(m) => Step::Done(
                    Err(
                        BrowserError::ProcessError(
                            "HTTP client error: ".to_owned().concat(m.as_str()),
                        ),
                    ),
                ),
                _ => Step::Ask(Action::StartTimer, DebugLaunching::Timer { started }),
            },
            DebugLaunching::Timer { started } | DebugLaunching::Sleeping { started } => Step::Ask(
                Action::ProbeProcess { pid: started.pid },
                DebugLaunching::Probing { started },
            ),
            DebugLaunching::Probing { started } => {
                let alive: bool = match event {
                    Event::Probe(probe) => is_pid_alive(started.pid, &probe),
                    _ => false,
                };
                Step::Ask(Action::ReadTimer, DebugLaunching::Timing { started, alive })
            },
            DebugLaunching::Timing { started, alive } => {
                let ms: u128 = event.into_millis();
                if ms >= START_LIMIT_MS as u128 {
                    Step::Done(Err(BrowserError::Timeout(late_text(started.port, ms, alive))))
                } else if !alive {
                    Step::Done(
                        Err(
                            BrowserError::ProcessError(
                                died_text(started.pid, started.port, ms),
                            ),
                        ),
                    )
                } else {
                    let url: String = debug_address_text(started.port).concat("/json/version");
                    Step::Ask(Action::FetchJson { url }, DebugLaunching::Fetching { started })
                }
            },
            DebugLaunching::Fetching { started } => {
                let ready: bool = match event {
                    Event::Value(body) => body.get("Browser").is_some(),
                    _ => false,
                };
                if ready {
                    Step::Ask(Action::ReadTimer, DebugLaunching::Ready { started })
                } else {
                    Step::Ask(
                        Action::Sleep { ms: POLL_MS },
                        DebugLaunching::Sleeping { started },
                    )
                }
            },
            DebugLaunching::Ready { started } => Step::Done(
                Ok(ready_text(started.port, started.url.as_str(), event.into_millis())),
            ),
        }
    }
}

/// Connects to a running browser.
#[derive(Debug)]
pub enum Attaching<S, L> {
    /// The connection is made.
    Connecting { url: S },
    /// The pages are listed.
    Listing,
    /// A page is opened, as there is none.
    Opening,
    /// The address of the first page is read.
    Reading { pages: L },
}

impl DeepView for Attaching<String, Vec<PageId>> {
    type V = Attaching<Seq<char>, Seq<PageId>>;

    open spec fn deep_view(&self) -> Attaching<Seq<char>, Seq<PageId>> {
        match self {
            Attaching::Connecting { url } => Attaching::Connecting { url: url@ },
            Attaching::Listing => Attaching::Listing,
            Attaching::Opening => Attaching::Opening,
            Attaching::Reading { pages } => Attaching::Reading { pages: pages@ },
        }
    }
}

impl Attaching<Seq<char>, Seq<PageId>> {
    /// The first step of attaching to a debug port.
    pub open spec fn start(port: u16) -> StepView<Attaching<Seq<char>, Seq<PageId>>, Seq<char>> {
        StepView::Ask(
            ActionView::Connect { url: debug_address(port) },
            Attaching::Connecting { url: debug_address(port) },
        )
    }

    /// What comes after an event.
    pub open spec fn next(self, event: Event) -> StepView<
        Attaching<Seq<char>, Seq<PageId>>,
        Seq<char>,
    > {
        match self {
            Attaching::Connecting { url } => match event.failure() {
                Some(m) => StepView::Done(
                    Err(ErrorView::Cdp("Connect to "@ + url + " failed: "@ + m)),
                ),
                None => StepView::Ask(ActionView::ListPages, Attaching::Listing),
            },
            Attaching::Listing => match event.pages() {
                Ok(pages) => if pages.len() == 0 {
                    StepView::Ask(ActionView::NewPage { url: BLANK@ }, Attaching::Opening)
                } else {
                    StepView::Ask(
                        ActionView::PageUrl { page: pages[0] },
                        Attaching::Reading { pages },
                    )
                },
                Err(e) => StepView::Done(Err(e)),
            },
            Attaching::Opening => match event.page() {
                Ok(page) => StepView::Ask(
                    ActionView::PageUrl { page },
                    Attaching::Reading { pages: seq![page] },
                ),
                Err(e) => StepView::Done(Err(e)),
            },
            Attaching::Reading { pages } => StepView::Done(Ok(event.text())),
        }
    }
}

impl ManagerView {
    /// The state after an event in a connection: it changes at the end alone, and nothing of a
    /// connection that failed stays.
    pub open spec fn attach_next(
        self,
        stage: Attaching<Seq<char>, Seq<PageId>>,
        event: Event,
    ) -> ManagerView {
        match stage {
            Attaching::Reading { pages } => ManagerView {
                current_url: event.text(),
                ..self.connected(pages, false)
            },
            _ => self,
        }
    }
}

impl Operation for Attaching<String, Vec<PageId>> {
    type Output = String;

    fn resume(self, manager: &mut BrowserManager, event: Event) -> (step: Step<Self, String>)
        ensures
            final(manager)@ == old(manager)@.attach_next(self.deep_view(), event),
            step.deep_view() == self.deep_view().next(event),
    {
        match self {
            Attaching::Connecting { url } => match event {
                Event::Failed(m) => Step::Done(
                    Err(
                        BrowserError::Cdp(
                            "Connect to ".to_owned().concat(url.as_str()).concat(
                                " failed: ",
                            ).concat(m.as_str()),
                        ),
                    ),
                ),
                _ => Step::Ask(Action::ListPages, Attaching::Listing),
            },
            Attaching::Listing => match event.into_pages() {
                Ok(pages) => if pages.len() == 0 {
                    Step::Ask(Action::NewPage { url: BLANK.to_owned() }, Attaching::Opening)
                } else {
                    Step::Ask(Action::PageUrl { page: pages[0] }, Attaching::Reading { pages })
                },
                Err(e) => Step::Done(Err(e)),
            },
            Attaching::Opening => match event.into_page() {
                Ok(page) => {
                    let pages: Vec<PageId> = vec![page];
                    assert(pages@ =~= seq![page]);
                    Step::Ask(Action::PageUrl { page }, Attaching::Reading { pages })
                },
                Err(e) => Step::Done(Err(e)),
            },
            Attaching::Reading { pages } => {
                let url: String = event.into_text();
                manager.connect(pages, false);
                manager.current_url = url.clone();
                Step::Done(Ok(url))
            },
        }
    }
}

/// Launches a browser.
#[derive(Debug)]
pub enum Launching {
    /// The browser is launched.
    Launching { headless: bool },
    /// Its first page is opened.
    Opening { headless: bool },
}

impl DeepView for Launching {
    type V = Launching;

    open spec fn deep_view(&self) -> Launching {
        *self
    }
}

impl Launching {
    /// What comes after an event.
    pub open spec fn next(self, event: Event) -> StepView<Launching, ()> {
        match self {
            Launching::Launching { headless } => match event.outcome() {
                Ok(_) => StepView::Ask(
                    ActionView::NewPage { url: BLANK@ },
                    Launching::Opening { headless },
                ),
                Err(e) => StepView::Done(Err(e)),
            },
            Launching::Opening { headless } => match event.page() {
                Ok(_) => StepView::Done(Ok(())),
                Err(e) => StepView::Done(Err(e)),
            },
        }
    }
}

impl ManagerView {
    /// The state after an event in a launch: it changes at the end alone, and nothing of a
    /// launch that failed stays.
    pub open spec fn launch_next(self, stage: Launching, event: Event) -> ManagerView {
        match stage {
            Launching::Launching { .. } => self,
            Launching::Opening { headless } => match event.page() {
                Ok(page) => self.connected(seq![page], headless),
                Err(_) => self,
            },
        }
    }

    /// The first step of a launch.
    pub open spec fn launch(self, headless: bool, profile: Option<Seq<char>>) -> StepView<
        Launching,
        (),
    > {
        StepView::Ask(
            ActionView::Launch { arguments: process::launch_argument_list(headless, profile) },
            Launching::Launching { headless },
        )
    }
}

impl Operation for Launching {
    type Output = ();

    fn resume(self, manager: &mut BrowserManager, event: Event) -> (step: Step<Self, ()>)
        ensures
            final(manager)@ == old(manager)@.launch_next(self, event),
            step.deep_view() == self.next(event),
    {
        match self {
            Launching::Launching { headless } => match event.into_outcome() {
                Ok(_) => Step::Ask(
                    Action::NewPage { url: BLANK.to_owned() },
                    Launching::Opening { headless },
                ),
                Err(e) => Step::Done(Err(e)),
            },
            Launching::Opening { headless } => match event.into_page() {
                Ok(page) => {
                    let pages: Vec<PageId> = vec![page];
                    assert(pages@ =~= seq![page]);
                    manager.connect(pages, headless);
                    Step::Done(Ok(()))
                },
                Err(e) => Step::Done(Err(e)),
            },
        }
    }
}

/// Looks whether the browser answers.
#[derive(Debug)]
pub struct CheckingAlive {}

impl DeepView for CheckingAlive {
    type V = CheckingAlive;

    open spec fn deep_view(&self) -> CheckingAlive {
        *self
    }
}

impl CheckingAlive {
    /// What comes after an event.
    pub open spec fn next(self, event: Event) -> StepView<CheckingAlive, bool> {
        StepView::<CheckingAlive, bool>::Done(Ok(event.failure() is None))
    }
}

impl Operation for CheckingAlive {
    type Output = bool;

    fn resume(self, manager: &mut BrowserManager, event: Event) -> (step: Step<Self, bool>)
        ensures
            final(manager)@ == old(manager)@,
            step.deep_view() == self.next(event),
    {
        Step::Done(Ok(!event.is_failure()))
    }
}

/// Makes sure that a browser answers: launches one where none does.
#[derive(Debug)]
pub enum EnsuringAlive {
    /// The browser is asked.
    Checking,
    /// A browser is launched.
    Launching(Launching),
}

impl DeepView for EnsuringAlive {
    type V = EnsuringAlive;

    open spec fn deep_view(&self) -> EnsuringAlive {
        *self
    }
}

impl EnsuringAlive {
    /// Puts a step of the launch into the whole.
    pub open spec fn wrap(step: StepView<Launching, ()>) -> StepView<EnsuringAlive, ()> {
        match step {
            StepView::Ask(action, inner) => StepView::Ask(action, EnsuringAlive::Launching(inner)),
            StepView::Done(r) => StepView::Done(r),
        }
    }
}

impl ManagerView {
    /// The state in which a browser is launched again: one that was there is given up first.
    pub open spec fn recovered(self) -> ManagerView {
        if self.launched {
            self.closed()
        } else {
            self
        }
    }

    /// The launch of another browser in place of one that does not answer.
    pub open spec fn relaunch(self) -> StepView<EnsuringAlive, ()> {
        EnsuringAlive::wrap(self.launch(self.headless, None))
    }

    /// The first step of keeping a browser alive, and the state after it.
    pub open spec fn ensure_alive(self) -> (ManagerView, StepView<EnsuringAlive, ()>) {
        match self.page() {
            Some(page) => (
                self,
                StepView::Ask(ActionView::PageUrl { page }, EnsuringAlive::Checking),
            ),
            None => (self.recovered(), self.relaunch()),
        }
    }

    /// What comes after an event.
    pub open spec fn ensure_next(self, stage: EnsuringAlive, event: Event) -> StepView<
        EnsuringAlive,
        (),
    > {
        match stage {
            EnsuringAlive::Checking => if event.failure() is None {
                StepView::Done(Ok(()))
            } else {
                self.relaunch()
            },
            EnsuringAlive::Launching(inner) => EnsuringAlive::wrap(inner.next(event)),
        }
    }

    /// The state after an event.
    pub open spec fn ensure_state(self, stage: EnsuringAlive, event: Event) -> ManagerView {
        match stage {
            EnsuringAlive::Checking => if event.failure() is None {
                self
            } else {
                self.recovered()
            },
            EnsuringAlive::Launching(inner) => self.launch_next(inner, event),
        }
    }
}

impl Operation for EnsuringAlive {
    type Output = ();

    fn resume(self, manager: &mut BrowserManager, event: Event) -> (step: Step<Self, ()>)
        ensures
            final(manager)@ == old(manager)@.ensure_state(self, event),
            step.deep_view() == old(manager)@.ensure_next(self, event),
    {
        match self {
            EnsuringAlive::Checking => if !event.is_failure() {
                Step::Done(Ok(()))
            } else {
                manager.relaunch()
            },
            EnsuringAlive::Launching(inner) => match inner.resume(manager, event) {
                Step::Ask(action, inner) => Step::Ask(action, EnsuringAlive::Launching(inner)),
                Step::Done(r) => Step::Done(r),
            },
        }
    }
}

impl ManagerView {
    /// The first step of looking whether the browser answers.
    pub open spec fn is_alive(self) -> StepView<CheckingAlive, bool> {
        match self.page() {
            Some(page) => StepView::Ask(ActionView::PageUrl { page }, CheckingAlive {  }),
            None => StepView::<CheckingAlive, bool>::Done(Ok(false)),
        }
    }
}

impl BrowserManager {
    /// Starts the user's own browser, with all logins, so that it listens on a debug port. Waits
    /// until the port answers where that is asked for.
    pub fn debug_launch(port: u16, url: Option<&str>, wait_for_cdp: bool) -> (step: Step<
        DebugLaunching<String, Vec<String>>,
        String,
    >)
        ensures
            step.deep_view() == DebugLaunching::start(
                DebugOrder {
                    port,
                    url: address_or_blank(
                        match url {
                            Some(u) => Some(u@),
                            None => None,
                        },
                    ),
                    wait_for_cdp,
                },
            ),
    {
        let url: String = match url {
            Some(u) => u.to_owned(),
            None => BLANK.to_owned(),
        };
        Step::Ask(
            Action::ReadVariable { name: APPDATA_VARIABLE.to_owned() },
            DebugLaunching::Reading { order: DebugOrder { port, url, wait_for_cdp } },
        )
    }

    /// Connects to the browser on a debug port and takes its pages over; the result is the
    /// address of the first.
    pub fn attach(&mut self, port: u16) -> (step: Step<Attaching<String, Vec<PageId>>, String>)
        ensures
            final(self)@ == old(self)@,
            step.deep_view() == Attaching::start(port),
    {
        let url: String = debug_address_text(port);
        let target: String = url.clone();
        Step::Ask(Action::Connect { url: target }, Attaching::Connecting { url })
    }

    /// Launches a browser with one blank page.
    pub fn launch(&mut self, headless: bool, profile_path: Option<String>) -> (step: Step<
        Launching,
        (),
    >)
        ensures
            final(self)@ == old(self)@,
            step.deep_view() == old(self)@.launch(headless, profile_path.deep_view()),
    {
        let arguments: Vec<String> = process::launch_arguments(headless, &profile_path);
        Step::Ask(Action::Launch { arguments }, Launching::Launching { headless })
    }

    /// Asks whether the browser answers; without a page it does not.
    pub fn is_alive(&self) -> (step: Step<CheckingAlive, bool>)
        ensures
            step.deep_view() == self@.is_alive(),
    {
        match self.page() {
            Ok(page) => Step::Ask(Action::PageUrl { page }, CheckingAlive {  }),
            Err(_) => Step::Done(Ok(false)),
        }
    }

    /// Makes sure that a browser answers.
    pub fn ensure_alive(&mut self) -> (step: Step<EnsuringAlive, ()>)
        ensures
            (final(self)@, step.deep_view()) == old(self)@.ensure_alive(),
    {
        match self.page() {
            Ok(page) => Step::Ask(Action::PageUrl { page }, EnsuringAlive::Checking),
            Err(_) => self.relaunch(),
        }
    }

    /// Gives up what is there and launches a browser as the last one was.
    fn relaunch(&mut self) -> (step: Step<EnsuringAlive, ()>)
        ensures
            final(self)@ == old(self)@.recovered(),
            step.deep_view() == old(self)@.relaunch(),
    {
        if self.launched {
            self.pages.clear();
            self.active_page_index = 0;
            self.launched = false;
        }
        match self.launch(self.headless, None) {
            Step::Ask(action, inner) => Step::Ask(action, EnsuringAlive::Launching(inner)),
            Step::Done(r) => Step::Done(r),
        }
    }
}

} // verus!
