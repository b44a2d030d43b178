//! What operations do to the manager and what they report: laws field by field.

use vstd::prelude::*;

use crate::browser::requests;
use crate::browser::session;
use crate::browser::session::{DebugLaunching, DebugOrder};
use crate::browser::{ContextView, ManagerView};
use crate::error::ErrorView;
use crate::json::{Json, JsonView};
use crate::process;
use crate::process::ProcessProbe;
use crate::scripts;
use crate::step::{ActionView, Event, PageId, StepView};
use crate::text;

verus! {

/// A new manager has nothing: no browser, no page, no route, no context and no trace; a browser
/// would be launched without a window.
pub proof fn lemma_new()
    ensures
        ManagerView::initial() == (ManagerView {
            launched: false,
            pages: seq![],
            active_page_index: 0,
            headless: true,
            current_url: seq![],
            routes: seq![],
            interception_active: false,
            contexts: Map::empty(),
            active_context: None,
            trace_active: false,
            trace_entries: seq![],
        }),
{
}

/// What changes when a browser is connected or given up, and nothing else does.
pub proof fn lemma_connection(state: ManagerView, pages: Seq<PageId>, headless: bool)
    ensures
        state.connected(pages, headless) == (ManagerView {
            launched: true,
            pages,
            active_page_index: 0,
            headless,
            ..state
        }),
        state.closed() == (ManagerView {
            launched: false,
            pages: seq![],
            active_page_index: 0,
            ..state
        }),
        state.launched ==> state.recovered() == state.closed(),
        !state.launched ==> state.recovered() == state,
{
}

/// The status tells whether there is a browser, how it runs, the current address, the number of
/// tabs and the place of the active one.
pub proof fn lemma_status(state: ManagerView)
    ensures
        state.status() matches JsonView::Object(fields) && fields =~= seq![
            ("active"@, JsonView::Bool(state.launched)),
            ("headless"@, JsonView::Bool(state.headless)),
            ("current_url"@, JsonView::Text(state.current_url)),
            ("tab_count"@, JsonView::Number(text::decimal(state.pages.len()))),
            ("active_tab"@, JsonView::Number(text::decimal(state.active_page_index as nat))),
        ],
{
}

/// A browser is launched without a window where that is asked for, with a profile where one is
/// named, and with what keeps it from showing that it is automated; then a blank page is opened.
pub proof fn lemma_launch_requests(
    state: ManagerView,
    headless: bool,
    profile: Option<Seq<char>>,
    page: PageId,
    m: String,
)
    ensures
        ({
            let first = state.launch(headless, profile);
            let second = first->Ask_1.next(Event::Done);
            let flags = seq![
                "--disable-blink-features=AutomationControlled"@,
                "--no-first-run"@,
                "--no-default-browser-check"@,
            ];
            &&& first matches StepView::Ask(ActionView::Launch { arguments }, _) && arguments
                =~= (if headless {
                seq!["--headless=new"@]
            } else {
                seq![]
            }) + (match profile {
                Some(dir) => seq!["--user-data-dir="@ + dir],
                None => seq![],
            }) + flags
            &&& requests::asks(second, ActionView::NewPage { url: "about:blank"@ })
            &&& requests::gives(second->Ask_1.next(Event::Page(page)), ())
            &&& requests::fails(first->Ask_1.next(Event::Failed(m)), ErrorView::Cdp(m@))
            &&& requests::fails(second->Ask_1.next(Event::Failed(m)), ErrorView::Cdp(m@))
            &&& state.launch_next(second->Ask_1, Event::Page(page)) == (ManagerView {
                launched: true,
                pages: seq![page],
                active_page_index: 0,
                headless,
                ..state
            })
        }),
{
}

/// A debug port is connected to, its pages are listed, and the address of the first is read; a
/// blank page is opened where there is none.
pub proof fn lemma_attach_requests(
    port: u16,
    pages: Vec<PageId>,
    page: PageId,
    t: String,
    m: String,
)
    ensures
        ({
            let address = "http://localhost:"@ + text::decimal(port as nat);
            let first = session::Attaching::start(port);
            let listing = first->Ask_1.next(Event::Done);
            let listed = listing->Ask_1.next(Event::Pages(pages));
            let opened = listed->Ask_1.next(Event::Page(page));
            &&& requests::asks(first, ActionView::Connect { url: address })
            &&& requests::fails(
                first->Ask_1.next(Event::Failed(m)),
                ErrorView::Cdp("Connect to "@ + address + " failed: "@ + m@),
            )
            &&& requests::asks(listing, ActionView::ListPages)
            &&& requests::fails(listing->Ask_1.next(Event::Failed(m)), ErrorView::Cdp(m@))
            &&& pages@.len() > 0 ==> {
                &&& requests::asks(listed, ActionView::PageUrl { page: pages@[0] })
                &&& requests::gives(listed->Ask_1.next(Event::Text(t)), t@)
            }
            &&& pages@.len() == 0 ==> {
                &&& requests::asks(listed, ActionView::NewPage { url: "about:blank"@ })
                &&& requests::asks(opened, ActionView::PageUrl { page })
                &&& requests::gives(opened->Ask_1.next(Event::Text(t)), t@)
                &&& requests::fails(listed->Ask_1.next(Event::Failed(m)), ErrorView::Cdp(m@))
            }
        }),
{
}

/// The browser answers where its active page tells its address; without a page it does not.
pub proof fn lemma_is_alive(state: ManagerView, page: PageId, t: String, m: String)
    ensures
        state.page() is None ==> requests::gives(state.is_alive(), false),
        state.page() == Some(page) ==> {
            &&& requests::asks(state.is_alive(), ActionView::PageUrl { page })
            &&& requests::gives(state.is_alive()->Ask_1.next(Event::Text(t)), true)
            &&& requests::gives(state.is_alive()->Ask_1.next(Event::Failed(m)), false)
        },
{
}

/// A browser that does not answer is given up and launched again, without a profile and with or
/// without a window as before.
pub proof fn lemma_recovery_requests(state: ManagerView, page: PageId, m: String)
    ensures
        ({
            let again = state.launch(state.headless, None)->Ask_0;
            &&& state.page() is None ==> requests::asks(state.ensure_alive().1, again)
            &&& state.page() == Some(page) ==> {
                let (checked, check) = state.ensure_alive();
                &&& checked == state
                &&& requests::asks(check, ActionView::PageUrl { page })
                &&& requests::asks(state.ensure_next(check->Ask_1, Event::Failed(m)), again)
                &&& requests::gives(state.ensure_next(check->Ask_1, Event::Done), ())
            }
        }),
{
}

/// Where a browser is looked for, and with what it is started for debugging.
pub proof fn lemma_debug_start(
    order: DebugOrder<Seq<char>>,
    dir: String,
    program: Seq<char>,
    rest: Seq<Seq<char>>,
    pid: u32,
    m: String,
)
    ensures
        session::address_or_blank(None) == "about:blank"@,
        forall|url: Seq<char>| session::address_or_blank(Some(url)) == url,
        ({
            let first = DebugLaunching::start(order);
            let paths = seq![
                r"C:\Program Files\Google\Chrome\Application\chrome.exe"@,
                r"C:\Program Files (x86)\Google\Chrome\Application\chrome.exe"@,
                dir@ + r"\Google\Chrome\Application\chrome.exe"@,
            ];
            &&& requests::asks(first, ActionView::ReadVariable { name: "LOCALAPPDATA"@ })
            &&& process::chrome_candidates(Some(dir@)) =~= paths
            &&& process::chrome_candidates(None)[2] =~= r"\Google\Chrome\Application\chrome.exe"@
            &&& first->Ask_1.next(Event::Text(dir)) == DebugLaunching::look(
                order,
                process::chrome_candidates(Some(dir@)),
            )
        }),
        ({
            let looking = DebugLaunching::Looking { order, program, rest };
            let found = looking.next(Event::Flag(true));
            let starting = DebugLaunching::<Seq<char>, Seq<Seq<char>>>::Starting { order };
            let started = starting.next(Event::Process(pid));
            &&& found matches StepView::Ask(
                ActionView::StartProcess { program: started_program, arguments },
                _,
            ) && started_program == program && arguments =~= seq![
                "--remote-debugging-port="@ + text::decimal(order.port as nat),
                "--no-first-run"@,
                "--no-default-browser-check"@,
                order.url,
            ]
            &&& rest.len() > 0 ==> requests::asks(
                looking.next(Event::Flag(false)),
                ActionView::CheckPath { path: rest[0] },
            )
            &&& rest.len() == 0 ==> requests::fails(
                looking.next(Event::Flag(false)),
                ErrorView::ProcessError("Chrome not found"@),
            )
            &&& requests::fails(
                starting.next(Event::Failed(m)),
                ErrorView::ProcessError("Failed to launch Chrome: "@ + m@),
            )
            &&& !order.wait_for_cdp ==> requests::gives(
                started,
                "Chrome launched with debug port "@ + text::decimal(order.port as nat)
                    + (". URL: "@ + order.url + ". Use browser_attach("@ + text::decimal(
                    order.port as nat,
                ) + ") to connect."@),
            )
            &&& order.wait_for_cdp ==> {
                let timer = started->Ask_1.next(Event::Done);
                let probe = timer->Ask_1.next(Event::Done);
                &&& requests::asks(started, ActionView::PrepareClient { timeout_ms: 500 })
                &&& requests::fails(
                    started->Ask_1.next(Event::Failed(m)),
                    ErrorView::ProcessError("HTTP client error: "@ + m@),
                )
                &&& requests::asks(timer, ActionView::StartTimer)
                &&& requests::asks(probe, ActionView::ProbeProcess { pid })
            }
        }),
{
    assert(seq![] + r"\Google\Chrome\Application\chrome.exe"@
        =~= r"\Google\Chrome\Application\chrome.exe"@);
}

/// The paths are tried in order, and the one that is there is the program that is started.
pub proof fn lemma_debug_paths(order: DebugOrder<Seq<char>>, paths: Seq<Seq<char>>)
    ensures
        paths.len() == 0 ==> requests::fails(
            DebugLaunching::look(order, paths),
            ErrorView::ProcessError("Chrome not found"@),
        ),
        paths.len() > 0 ==> {
            let look = DebugLaunching::look(order, paths);
            &&& requests::asks(look, ActionView::CheckPath { path: paths[0] })
            &&& look->Ask_1.next(Event::Flag(true)) matches StepView::Ask(
                ActionView::StartProcess { program, .. },
                _,
            ) && program == paths[0]
            &&& look->Ask_1.next(Event::Flag(false)) == DebugLaunching::look(order, paths.skip(1))
        },
{
}

/// The wait for the debug port, round by round: the process is looked at and the timer is read;
/// after ten seconds, or once the process is gone, the wait fails and says so; otherwise the port
/// is asked, and once it names its browser the start is reported with the time it took.
pub proof fn lemma_debug_wait(
    started: session::Started<Seq<char>>,
    alive: bool,
    n: u128,
    body: Json,
    any: Event,
    m: String,
)
    ensures
        ({
            let port = text::decimal(started.port as nat);
            let ms = text::decimal(n as nat);
            let probing = DebugLaunching::<Seq<char>, Seq<Seq<char>>>::Probing { started };
            let timing = probing.next(Event::Probe(ProcessProbe::ProcEntry(alive)));
            let round = timing->Ask_1.next(Event::Millis(n));
            let hint = ". URL: "@ + started.url + ". Use browser_attach("@ + port
                + ") to connect."@;
            &&& requests::asks(timing, ActionView::ReadTimer)
            &&& n >= 10000 ==> requests::fails(
                round,
                ErrorView::Timeout(
                    "Chrome did not start CDP on port "@ + port + " after "@ + ms
                        + "ms (process alive: "@ + (if alive {
                        "true"@
                    } else {
                        "false"@
                    }) + ")"@,
                ),
            )
            &&& n < 10000 && !alive ==> requests::fails(
                round,
                ErrorView::ProcessError(
                    "Chrome process (pid "@ + text::decimal(started.pid as nat)
                        + ") died before CDP was ready on port "@ + port + " (after "@ + ms
                        + "ms)"@,
                ),
            )
            &&& n < 10000 && alive ==> {
                let ready = round->Ask_1.next(Event::Value(body));
                let refused = round->Ask_1.next(Event::Failed(m));
                &&& requests::asks(
                    round,
                    ActionView::FetchJson {
                        url: "http://localhost:"@ + port + "/json/version"@,
                    },
                )
                &&& body.deep_view().get("Browser"@) is Some ==> {
                    &&& requests::asks(ready, ActionView::ReadTimer)
                    &&& requests::gives(
                        ready->Ask_1.next(Event::Millis(n)),
                        "Chrome launched with debug port "@ + port + " (CDP ready in "@ + ms
                            + "ms)"@ + hint,
                    )
                }
                &&& body.deep_view().get("Browser"@) is None ==> requests::asks(
                    ready,
                    ActionView::Sleep { ms: 150 },
                )
                &&& requests::asks(refused, ActionView::Sleep { ms: 150 })
                &&& requests::asks(
                    refused->Ask_1.next(any),
                    ActionView::ProbeProcess { pid: started.pid },
                )
            }
        }),
{
}

/// A process is alive where the list of tasks shows its number, or where it has an entry; without
/// a list it is not.
pub proof fn lemma_alive(pid: u32, out: String, entry: bool)
    ensures
        ProcessProbe::TaskList(Some(out)).shows_alive(pid) == text::occurs(
            out@,
            text::decimal(pid as nat),
        ),
        !ProcessProbe::TaskList(None).shows_alive(pid),
        ProcessProbe::ProcEntry(entry).shows_alive(pid) == entry,
{
}

/// A search for a tab by its address begins with the first tab, and compares in lower case.
pub proof fn lemma_tab_search(state: ManagerView, wanted: Seq<char>, url: String, m: String)
    requires
        0 < state.pages.len() <= usize::MAX,
    ensures
        ({
            let first = state.switch_tab_by_url(wanted);
            let (after, step) = state.seek_next(first->Ask_1, text::lowercase(url@));
            &&& requests::asks(first, ActionView::PageUrl { page: state.pages[0] })
            &&& text::occurs(text::lowercase(url@), text::lowercase(wanted)) ==> {
                &&& after == (ManagerView { active_page_index: 0, ..state })
                &&& requests::gives(step, 0)
            }
            &&& !text::occurs(text::lowercase(url@), text::lowercase(wanted)) ==> {
                &&& after == state
                &&& state.pages.len() > 1 ==> requests::asks(
                    step,
                    ActionView::PageUrl { page: state.pages[1] },
                )
                &&& state.pages.len() == 1 ==> requests::fails(
                    step,
                    ErrorView::Cdp("No tab with URL containing '"@ + wanted + "'"@),
                )
            }
        }),
{
}

/// A burst takes pictures of what is seen of the page, with the pause that is asked for after
/// each.
pub proof fn lemma_burst_requests(
    state: ManagerView,
    page: PageId,
    count: usize,
    interval_ms: u64,
    quality: u8,
    bytes: Vec<u8>,
)
    requires
        state.page() == Some(page),
        count > 0,
    ensures
        ({
            let first = state.screenshot_burst(count, interval_ms, quality);
            let pause = state.burst_after(first->Ask_1, Event::Bytes(bytes));
            let next = state.burst_after(pause->Ask_1, Event::Done);
            let picture = ActionView::Screenshot { page, full_page: false, quality };
            &&& requests::asks(first, picture)
            &&& requests::asks(pause, ActionView::Sleep { ms: interval_ms })
            &&& count > 1 ==> requests::asks(next, picture)
            &&& count == 1 ==> (next matches StepView::Done(Ok(shots)) && shots.len() == 1
                && shots[0] == crate::browser::page::base64_text(bytes@))
        }),
{
}

/// A tab is opened blank, comes last and is active; it belongs to the active context.
pub proof fn lemma_new_page(state: ManagerView, page: PageId, m: String)
    ensures
        !state.launched ==> requests::fails(state.new_page(), ErrorView::NotLaunched),
        state.launched && state.active_context is None ==> requests::asks(
            state.new_page(),
            ActionView::NewPage { url: "about:blank"@ },
        ),
        state.launched && state.active_context is Some && state.pages.len() > 0
            ==> requests::asks(
            state.new_page(),
            ActionView::NewPageBeside { page: state.pages[0], url: "about:blank"@ },
        ),
        state.launched && state.active_context is Some && state.pages.len() == 0
            ==> requests::asks(
            state.new_page(),
            ActionView::NewContextPage { url: "about:blank"@ },
        ),
        state.new_page_next(Event::Page(page)) == (
            ManagerView {
                pages: state.pages.push(page),
                active_page_index: state.pages.len() as int,
                ..state
            },
            StepView::<crate::browser::tabs::OpeningTab, ()>::Done(Ok(())),
        ),
        state.new_page_next(Event::Failed(m)) == (
            state,
            StepView::<crate::browser::tabs::OpeningTab, ()>::Done(Err(ErrorView::Cdp(m@))),
        ),
{
}

/// A tab is switched to by its index, and closed by it; an index without a tab is an error that
/// names the range, and the last tab is not closed.
pub proof fn lemma_tab_indices(state: ManagerView, index: int)
    requires
        0 <= index,
        state.pages.len() <= usize::MAX,
    ensures
        ({
            let range = ErrorView::Cdp(
                "Tab index "@ + text::decimal(index as nat) + " out of range (0.."@
                    + text::decimal(state.pages.len()) + ")"@,
            );
            let closing = state.close_tab(index);
            &&& index < state.pages.len() ==> state.switch_tab_by_index(index) == (
                ManagerView { active_page_index: index, ..state },
                Ok::<(), ErrorView>(()),
            )
            &&& index >= state.pages.len() ==> {
                &&& state.switch_tab_by_index(index) == (state, Err::<(), ErrorView>(range))
                &&& closing.0 == state
                &&& requests::fails(closing.1, range)
            }
            &&& index < state.pages.len() && state.pages.len() == 1 ==> {
                &&& closing.0 == state
                &&& requests::fails(closing.1, ErrorView::Cdp("Cannot close the last tab"@))
            }
            &&& index < state.pages.len() && state.pages.len() > 1 ==> {
                &&& closing.0 == (ManagerView { pages: state.pages.remove(index), ..state })
                &&& requests::asks(
                    closing.1,
                    ActionView::ClosePage { page: state.pages[index] },
                )
            }
        }),
{
}

/// The place of the active tab after one was closed: one that lay behind it moves up, and the
/// last one takes the place of one that is gone.
pub proof fn lemma_settled(state: ManagerView, index: usize, m: String)
    requires
        state.pages.len() > 0,
        state.active_page_index >= 0,
    ensures
        ({
            let stage = crate::browser::tabs::ClosingTab { index };
            let (after, end) = state.close_tab_next(stage, Event::Done);
            let active = state.active_page_index;
            &&& requests::gives(end, ())
            &&& after == (ManagerView { active_page_index: after.active_page_index, ..state })
            &&& active >= state.pages.len() ==> after.active_page_index == state.pages.len() - 1
            &&& index < active < state.pages.len() ==> after.active_page_index == active - 1
            &&& active <= index && active < state.pages.len() ==> after.active_page_index == active
            &&& state.close_tab_next(stage, Event::Failed(m)).0 == state
            &&& requests::fails(
                state.close_tab_next(stage, Event::Failed(m)).1,
                ErrorView::Cdp(m@),
            )
        }),
{
}

/// A tab as it is listed tells its place, its address, its title and whether it is active; the
/// tabs are asked one after the other, each for its address and then for its title.
pub proof fn lemma_listed_tab(
    state: ManagerView,
    index: usize,
    url: String,
    title: String,
    listed: Seq<JsonView>,
)
    requires
        index < state.pages.len() <= usize::MAX,
    ensures
        ({
            let page = state.pages[index as int];
            let step = state.list_from(index as int, listed);
            let titling = state.list_next(step->Ask_1, Event::Text(url));
            let next = state.list_next(titling->Ask_1, Event::Text(title));
            let tab = JsonView::Object(
                seq![
                    ("index"@, JsonView::Number(text::decimal(index as nat))),
                    ("url"@, JsonView::Text(url@)),
                    ("title"@, JsonView::Text(title@)),
                    ("active"@, JsonView::Bool(index == state.active_page_index)),
                ],
            );
            &&& requests::asks(step, ActionView::PageUrl { page })
            &&& requests::asks(titling, ActionView::PageTitle { page })
            &&& index + 1 == state.pages.len() ==> requests::gives(next, listed.push(tab))
            &&& index + 1 < state.pages.len() ==> requests::asks(
                next,
                ActionView::PageUrl { page: state.pages[index + 1] },
            )
        }),
{
}

/// The address that is asked for is the current one from then on.
pub proof fn lemma_headed_for(state: ManagerView, url: Seq<char>)
    ensures
        state.headed_for(url) == (ManagerView { current_url: url, ..state }),
{
}

/// A context is created with one page of its own, under its name and beside the others; the
/// active one stays. The report names it and its address.
pub proof fn lemma_create_context(
    state: ManagerView,
    name: Seq<char>,
    url: Seq<char>,
    page: PageId,
    m: String,
)
    ensures
        !state.launched ==> requests::fails(
            state.create_context(name, url),
            ErrorView::NotLaunched,
        ),
        state.launched ==> {
            let step = state.create_context(name, url);
            let (after, end) = state.create_next(step->Ask_1, Event::Page(page));
            let (same, failed) = state.create_next(step->Ask_1, Event::Failed(m));
            &&& requests::asks(step, ActionView::NewContextPage { url })
            &&& after == (ManagerView {
                contexts: state.contexts.insert(
                    name,
                    ContextView { pages: seq![page], active_page_index: 0 },
                ),
                ..state
            })
            &&& requests::gives(end, "Context '"@ + name + "' created at "@ + url)
            &&& same == state
            &&& requests::fails(failed, ErrorView::Cdp(m@))
        },
{
}

/// A switch to a named context that is kept: its pages are the tabs, its active tab is active and
/// it is no longer kept; what was active is kept under its name, the default one under
/// `__default__`.
pub proof fn lemma_switch_to_named(state: ManagerView, name: Seq<char>)
    requires
        name != "default"@,
        name != "__default__"@,
        state.contexts.dom().contains(name),
        state.active_context != Some(name),
    ensures
        ({
            let (after, report) = state.switch_context(name);
            let key = match state.active_context {
                Some(active) => active,
                None => "__default__"@,
            };
            &&& report == Ok::<Seq<char>, ErrorView>("Switched to context '"@ + name + "'"@)
            &&& after == (ManagerView {
                pages: state.contexts[name].pages,
                active_page_index: state.contexts[name].active_page_index,
                active_context: Some(name),
                contexts: state.contexts.insert(
                    key,
                    ContextView {
                        pages: state.pages,
                        active_page_index: state.active_page_index,
                    },
                ).remove(name),
                ..state
            })
        }),
{
    let after = state.switch_context(name).0;
    let key = match state.active_context {
        Some(active) => active,
        None => "__default__"@,
    };
    assert(key != name);
}

/// A switch to the default context, under either of its names: it is taken from where it is kept.
/// Where nothing is kept there the switch fails, and what was active is kept all the same.
pub proof fn lemma_switch_to_default(state: ManagerView, name: Seq<char>, active: Seq<char>)
    requires
        name == "default"@ || name == "__default__"@,
        state.active_context == Some(active),
        active != "__default__"@,
    ensures
        ({
            let (after, report) = state.switch_context(name);
            let kept = state.contexts.insert(
                active,
                ContextView { pages: state.pages, active_page_index: state.active_page_index },
            );
            &&& state.contexts.dom().contains("__default__"@) ==> {
                &&& report == Ok::<Seq<char>, ErrorView>("Switched to context '"@ + name + "'"@)
                &&& after == (ManagerView {
                    pages: state.contexts["__default__"@].pages,
                    active_page_index: state.contexts["__default__"@].active_page_index,
                    active_context: None,
                    contexts: kept.remove("__default__"@),
                    ..state
                })
            }
            &&& !state.contexts.dom().contains("__default__"@) ==> {
                &&& report == Err::<Seq<char>, ErrorView>(
                    ErrorView::ElementNotFound("Context '"@ + name + "' not found"@),
                )
                &&& after == (ManagerView { pages: seq![], contexts: kept, ..state })
            }
        }),
{
}

/// Switches that change nothing: to a name without a context, which is an error, and to the
/// context that is active.
pub proof fn lemma_switch_refused(state: ManagerView, name: Seq<char>)
    ensures
        name != "default"@ && name != "__default__"@ && !state.contexts.dom().contains(name)
            ==> state.switch_context(name) == (
            state,
            Err::<Seq<char>, ErrorView>(
                ErrorView::ElementNotFound("Context '"@ + name + "' not found"@),
            ),
        ),
        (name == "default"@ || name == "__default__"@) && state.active_context is None
            ==> state.switch_context(name) == (
            state,
            Ok::<Seq<char>, ErrorView>("Already in default context"@),
        ),
        name != "default"@ && name != "__default__"@ && state.contexts.dom().contains(name)
            && state.active_context == Some(name) ==> state.switch_context(name) == (
            state,
            Ok::<Seq<char>, ErrorView>("Already in context '"@ + name + "'"@),
        ),
{
}

/// A context that is destroyed is kept no more, its pages are closed from the first on, and the
/// report tells how many there were; a name without a context is an error.
pub proof fn lemma_destroy_context(state: ManagerView, name: Seq<char>, any: Event)
    ensures
        !state.contexts.dom().contains(name) ==> {
            &&& state.destroy_context(name).0 == state
            &&& requests::fails(
                state.destroy_context(name).1,
                ErrorView::ElementNotFound("Context '"@ + name + "' not found"@),
            )
        },
        state.contexts.dom().contains(name) ==> {
            let pages = state.contexts[name].pages;
            let (after, step) = state.destroy_context(name);
            let report = "Context '"@ + name + "' destroyed ("@ + text::decimal(pages.len())
                + " pages closed)"@;
            &&& after == (ManagerView {
                contexts: state.contexts.remove(name),
                active_context: if state.active_context == Some(name) {
                    None
                } else {
                    state.active_context
                },
                ..state
            })
            &&& pages.len() == 0 ==> requests::gives(step, report)
            &&& pages.len() > 0 ==> requests::asks(step, ActionView::ClosePage { page: pages[0] })
            &&& pages.len() == 1 ==> requests::gives(step->Ask_1.next(any), report)
            &&& pages.len() > 1 ==> requests::asks(
                step->Ask_1.next(any),
                ActionView::ClosePage { page: pages[1] },
            )
        },
{
}

/// The contexts as they are listed: the active one first, under its name or as `default`, with
/// the number of its tabs, then each of the others with the number of its pages.
pub proof fn lemma_listed_contexts(
    state: ManagerView,
    listed: Seq<JsonView>,
    order: Seq<Seq<char>>,
    k: int,
)
    requires
        state.lists_contexts(listed, order),
    ensures
        listed.len() == order.len() + 1,
        order.to_set() == state.contexts.dom(),
        listed[0] matches JsonView::Object(fields) && fields =~= seq![
            (
                "name"@,
                JsonView::Text(
                    match state.active_context {
                        Some(name) => name,
                        None => "default"@,
                    },
                ),
            ),
            ("pages"@, JsonView::Number(text::decimal(state.pages.len()))),
            ("active"@, JsonView::Bool(true)),
        ],
        0 <= k < order.len() ==> (listed[k + 1] matches JsonView::Object(fields) && fields
            =~= seq![
            ("name"@, JsonView::Text(order[k])),
            (
                "pages"@,
                JsonView::Number(text::decimal(state.contexts[order[k]].pages.len())),
            ),
            ("active"@, JsonView::Bool(false)),
        ]),
{
}

/// A trace is started by a script on the active page. It counts as active from the request on and
/// is empty then; once the page took the script it holds the entry of its start.
pub proof fn lemma_trace_start_requests(state: ManagerView, page: PageId, v: Json, m: String)
    ensures
        state.trace_active ==> {
            &&& state.trace_start().0 == state
            &&& requests::fails(
                state.trace_start().1,
                ErrorView::Cdp("Trace already active"@),
            )
        },
        !state.trace_active ==> {
            let (after, step) = state.trace_start();
            let (recording, end) = after.trace_start_next(Event::Value(v));
            let (same, failed) = after.trace_start_next(Event::Failed(m));
            &&& after == (ManagerView { trace_active: true, trace_entries: seq![], ..state })
            &&& state.page() is None ==> requests::fails(step, ErrorView::NoPage)
            &&& state.page() == Some(page) ==> requests::sends(step, page, scripts::TRACE_START@)
            &&& requests::gives(end, "Trace recording started"@)
            &&& recording.trace_entries.len() == 1
            &&& recording.trace_entries[0] matches JsonView::Object(fields)
            &&& fields =~= seq![
                ("type"@, JsonView::Text("trace_start"@)),
                ("time"@, JsonView::Number(text::decimal(0))),
                ("url"@, JsonView::Text(state.current_url)),
            ]
            &&& recording == (ManagerView { trace_entries: recording.trace_entries, ..after })
            &&& same == after
            &&& requests::fails(failed, ErrorView::Cdp(m@))
        },
{
}

/// A trace is stopped, and saved, by first asking the page for what it recorded, the array that
/// the script of the start made and filled, and then having it cleaned up.
pub proof fn lemma_trace_stop_requests(
    state: ManagerView,
    page: PageId,
    path: Seq<char>,
    v: Json,
    m: String,
)
    ensures
        !state.trace_active ==> {
            &&& requests::fails(state.trace_stop(), ErrorView::Cdp("No active trace"@))
            &&& requests::fails(state.trace_save(path), ErrorView::Cdp("No active trace"@))
        },
        state.trace_active && state.page() is None ==> {
            &&& requests::fails(state.trace_stop(), ErrorView::NoPage)
            &&& requests::fails(state.trace_save(path), ErrorView::NoPage)
        },
        state.trace_active && state.page() == Some(page) ==> {
            let recorded = "JSON.stringify(window.__mcp_trace || [])"@;
            let stop = state.trace_stop();
            let save = state.trace_save(path);
            let (same, clean) = state.trace_stop_next(stop->Ask_1, Event::Value(v));
            let (kept, tidy) = state.trace_save_next(save->Ask_1, Event::Value(v));
            &&& requests::sends(stop, page, recorded)
            &&& requests::sends(save, page, recorded)
            &&& requests::sends(clean, page, scripts::TRACE_CLEANUP@)
            &&& requests::sends(tidy, page, scripts::TRACE_CLEANUP@)
            &&& same == state
            &&& kept == state
            &&& state.trace_stop_next(stop->Ask_1, Event::Failed(m)).0 == state
            &&& requests::fails(
                state.trace_stop_next(stop->Ask_1, Event::Failed(m)).1,
                ErrorView::Cdp(m@),
            )
        },
{
}

/// What a stopped trace is: all entries, those kept here before those of the page, and their
/// number. The page gives its entries as an array, or as text that is read as one.
pub proof fn lemma_trace_result(
    state: ManagerView,
    page: PageId,
    v: Json,
    items: Seq<JsonView>,
    any: Event,
)
    requires
        state.trace_active,
        state.page() == Some(page),
        ({
            ||| v.deep_view() == JsonView::Array(items)
            ||| v.deep_view() matches JsonView::Text(t) && crate::json::read_json(t) == Some(
                JsonView::Array(items),
            )
        }),
    ensures
        ({
            let clean = state.trace_stop_next(state.trace_stop()->Ask_1, Event::Value(v)).1;
            let (after, end) = state.trace_stop_next(clean->Ask_1, any);
            let all = state.trace_entries + items;
            &&& end matches StepView::Done(Ok(JsonView::Object(fields)))
            &&& fields =~= seq![
                ("entries"@, JsonView::Array(all)),
                ("count"@, JsonView::Number(text::decimal(all.len()))),
            ]
            &&& after == (ManagerView { trace_active: false, trace_entries: seq![], ..state })
        }),
{
}

/// What is written of a trace, and what is reported: the path and the number of its entries.
pub proof fn lemma_trace_written(
    state: ManagerView,
    text: Seq<char>,
    count: u64,
    path: Seq<char>,
    m: String,
)
    ensures
        ({
            let step = crate::browser::trace::SavingTrace::write(text, count, path);
            let (after, end) = state.trace_save_next(step->Ask_1, Event::Done);
            let (same, failed) = state.trace_save_next(step->Ask_1, Event::Failed(m));
            &&& requests::asks(step, ActionView::WriteText { path, text })
            &&& requests::gives(
                end,
                "Trace saved to "@ + path + " ("@ + text::decimal(count as nat) + " entries)"@,
            )
            &&& requests::fails(failed, ErrorView::Cdp("Failed to write trace: "@ + m@))
            &&& after == state
            &&& same == state
        }),
{
}

/// An entry that is added by hand comes last, while a trace is recorded, and tells what it was
/// given; without a trace nothing is added.
pub proof fn lemma_trace_log(
    state: ManagerView,
    entry_type: Seq<char>,
    name: Seq<char>,
    time: u64,
    details: Option<JsonView>,
)
    ensures
        !state.trace_active ==> state.trace_log(entry_type, name, time, details) == state,
        state.trace_active ==> {
            let after = state.trace_log(entry_type, name, time, details);
            let told = seq![
                ("type"@, JsonView::Text(entry_type)),
                ("name"@, JsonView::Text(name)),
                ("time"@, JsonView::Number(text::decimal(time as nat))),
            ];
            &&& after == (ManagerView { trace_entries: after.trace_entries, ..state })
            &&& after.trace_entries.drop_last() == state.trace_entries
            &&& after.trace_entries.len() == state.trace_entries.len() + 1
            &&& after.trace_entries.last() matches JsonView::Object(fields)
            &&& details matches Some(d) ==> fields =~= told.push(("details"@, d))
            &&& details is None ==> fields =~= told
        },
{
    if state.trace_active {
        let after = state.trace_log(entry_type, name, time, details);
        assert(after.trace_entries.drop_last() =~= state.trace_entries);
    }
}

/// A wait for a visible element is a wait with the look at it asked for.
pub proof fn lemma_auto_wait(state: ManagerView, what: Seq<char>, timeout_ms: u64)
    ensures
        state.auto_wait_selector(what, timeout_ms) == state.wait_for(what, timeout_ms, true),
        state.auto_wait_xpath(what, timeout_ms) == state.wait_for_xpath(what, timeout_ms, true),
{
}

} // verus!
