//! The steps of an operation: what it asks the outside to do, and what it is told in return.

use vstd::prelude::*;

use crate::browser::{BrowserManager, ManagerView};
use crate::error::{BrowserError, ErrorView};
use crate::json::{Json, JsonView};
use crate::process::ProcessProbe;

verus! {

/// The number under which a page is known.
pub type PageId = u64;

/// The number under which a found element is known.
pub type ElementId = u64;

/// A request to the outside. Each says which events answer it; an operation reads any other
/// event as the readings of [`Event`] say.
#[derive(Debug, PartialEq, Eq)]
pub enum Action {
    /// Read an environment variable: `Text`, or `Failed` where it is not set.
    ReadVariable { name: String },
    /// Look whether a path exists: `Flag`.
    CheckPath { path: String },
    /// Start a process: `Process`, or `Failed`.
    StartProcess { program: String, arguments: Vec<String> },
    /// Prepare an HTTP client with a limit for each request: `Done`, or `Failed`.
    PrepareClient { timeout_ms: u64 },
    /// Fetch a JSON document over HTTP: `Value`, or `Failed` where the request or its status
    /// failed or the body is no JSON.
    FetchJson { url: String },
    /// Look at a process: `Probe`.
    ProbeProcess { pid: u32 },
    /// Start the timer of the operation: any event.
    StartTimer,
    /// The whole milliseconds since the timer was started: `Millis`.
    ReadTimer,
    /// Wait: any event.
    Sleep { ms: u64 },
    /// Connect to a running browser: `Done`, or `Failed`.
    Connect { url: String },
    /// Launch a browser: `Done`, or `Failed`.
    Launch { arguments: Vec<String> },
    /// The pages of the browser: `Pages`, or `Failed`.
    ListPages,
    /// Open a page in the context that the browser started with: `Page`, or `Failed`.
    NewPage { url: String },
    /// Open a page in a new context, which shares no cookies and no storage with any other:
    /// `Page`, or `Failed`.
    NewContextPage { url: String },
    /// Open a page in the context that another page is in: `Page`, or `Failed`.
    NewPageBeside { page: PageId, url: String },
    /// The address of a page: `Text`, empty where it has none, or `Failed`.
    PageUrl { page: PageId },
    /// The title of a page: `Text`, empty where it has none, or `Failed`.
    PageTitle { page: PageId },
    /// The HTML of a page: `Text`, or `Failed`.
    PageContent { page: PageId },
    /// Load an address in a page: `Done`, or `Failed`.
    Goto { page: PageId, url: String },
    /// Close a page: `Done`, or `Failed`.
    ClosePage { page: PageId },
    /// Find an element by selector: `Element`, or `Failed`.
    FindElement { page: PageId, selector: String },
    /// Click an element: `Done`, `Failed`, or `TimedOut` where the click took longer than the
    /// limit.
    ClickElement { element: ElementId, limit_ms: u64 },
    /// Type text into an element: `Done`, or `Failed`.
    TypeText { element: ElementId, text: String },
    /// Focus an element: `Done`, or `Failed`.
    FocusElement { element: ElementId },
    /// Scroll to an element: any event.
    ScrollIntoView { element: ElementId },
    /// The HTML of an element: `Text`, `Done` where it has none, or `Failed`.
    ElementHtml { element: ElementId },
    /// The text of an element: `Text`, `Done` where it has none, or `Failed`.
    ElementText { element: ElementId },
    /// Run a script on a page: `Value`, or `Failed`.
    Evaluate { page: PageId, script: String },
    /// Run a script on a page within a limit: `Value`, `Failed`, or `TimedOut`.
    EvaluateWithin { page: PageId, script: String, limit_ms: u64 },
    /// Send that a named key goes down: `Done`, or `Failed`.
    KeyDown { page: PageId, key: String },
    /// Send that a named key goes up: `Done`, or `Failed`.
    KeyUp { page: PageId, key: String },
    /// Send that the key for a character goes down: `Done`, or `Failed`.
    KeyChar { page: PageId, text: String },
    /// Take a JPEG picture of a page: `Bytes`, or `Failed`.
    Screenshot { page: PageId, full_page: bool, quality: u8 },
    /// Take a JPEG picture of an element: `Bytes`, or `Failed`.
    ElementScreenshot { element: ElementId },
    /// Write a file: `Done`, or `Failed`.
    WriteBytes { path: String, bytes: Vec<u8> },
    /// Write a text file: `Done`, or `Failed`.
    WriteText { path: String, text: String },
    /// The cookies of a page: `Cookies`, or `Failed`.
    ReadCookies { page: PageId },
    /// Set a cookie: `Done`, or `Failed`.
    SetCookie { page: PageId, name: String, value: String, domain: String },
    /// Delete the cookies with these names and domains: `Done`, or `Failed`.
    DeleteCookies { page: PageId, cookies: Vec<Cookie> },
}

/// The mathematical content of an [`Action`].
#[verifier::ext_equal]
pub enum ActionView {
    ReadVariable { name: Seq<char> },
    CheckPath { path: Seq<char> },
    StartProcess { program: Seq<char>, arguments: Seq<Seq<char>> },
    PrepareClient { timeout_ms: u64 },
    FetchJson { url: Seq<char> },
    ProbeProcess { pid: u32 },
    StartTimer,
    ReadTimer,
    Sleep { ms: u64 },
    Connect { url: Seq<char> },
    Launch { arguments: Seq<Seq<char>> },
    ListPages,
    NewPage { url: Seq<char> },
    NewContextPage { url: Seq<char> },
    NewPageBeside { page: PageId, url: Seq<char> },
    PageUrl { page: PageId },
    PageTitle { page: PageId },
    PageContent { page: PageId },
    Goto { page: PageId, url: Seq<char> },
    ClosePage { page: PageId },
    FindElement { page: PageId, selector: Seq<char> },
    ClickElement { element: ElementId, limit_ms: u64 },
    TypeText { element: ElementId, text: Seq<char> },
    FocusElement { element: ElementId },
    ScrollIntoView { element: ElementId },
    ElementHtml { element: ElementId },
    ElementText { element: ElementId },
    Evaluate { page: PageId, script: Seq<char> },
    EvaluateWithin { page: PageId, script: Seq<char>, limit_ms: u64 },
    KeyDown { page: PageId, key: Seq<char> },
    KeyUp { page: PageId, key: Seq<char> },
    KeyChar { page: PageId, text: Seq<char> },
    Screenshot { page: PageId, full_page: bool, quality: u8 },
    ElementScreenshot { element: ElementId },
    WriteBytes { path: Seq<char>, bytes: Seq<u8> },
    WriteText { path: Seq<char>, text: Seq<char> },
    ReadCookies { page: PageId },
    SetCookie { page: PageId, name: Seq<char>, value: Seq<char>, domain: Seq<char> },
    DeleteCookies { page: PageId, cookies: Seq<CookieView> },
}

impl DeepView for Action {
    type V = ActionView;

    open spec fn deep_view(&self) -> ActionView {
        match self {
            Action::ReadVariable { name } => ActionView::ReadVariable { name: name@ },
            Action::CheckPath { path } => ActionView::CheckPath { path: path@ },
            Action::StartProcess { program, arguments } => ActionView::StartProcess {
                program: program@,
                arguments: arguments.deep_view(),
            },
            Action::PrepareClient { timeout_ms } => ActionView::PrepareClient {
                timeout_ms: *timeout_ms,
            },
            Action::FetchJson { url } => ActionView::FetchJson { url: url@ },
            Action::ProbeProcess { pid } => ActionView::ProbeProcess { pid: *pid },
            Action::StartTimer => ActionView::StartTimer,
            Action::ReadTimer => ActionView::ReadTimer,
            Action::Sleep { ms } => ActionView::Sleep { ms: *ms },
            Action::Connect { url } => ActionView::Connect { url: url@ },
            Action::Launch { arguments } => ActionView::Launch { arguments: arguments.deep_view() },
            Action::ListPages => ActionView::ListPages,
            Action::NewPage { url } => ActionView::NewPage { url: url@ },
            Action::NewContextPage { url } => ActionView::NewContextPage { url: url@ },
            Action::NewPageBeside { page, url } => ActionView::NewPageBeside {
                page: *page,
                url: url@,
            },
            Action::PageUrl { page } => ActionView::PageUrl { page: *page },
            Action::PageTitle { page } => ActionView::PageTitle { page: *page },
            Action::PageContent { page } => ActionView::PageContent { page: *page },
            Action::Goto { page, url } => ActionView::Goto { page: *page, url: url@ },
            Action::ClosePage { page } => ActionView::ClosePage { page: *page },
            Action::FindElement { page, selector } => ActionView::FindElement {
                page: *page,
                selector: selector@,
            },
            Action::ClickElement { element, limit_ms } => ActionView::ClickElement {
                element: *element,
                limit_ms: *limit_ms,
            },
            Action::TypeText { element, text } => ActionView::TypeText {
                element: *element,
                text: text@,
            },
            Action::FocusElement { element } => ActionView::FocusElement { element: *element },
            Action::ScrollIntoView { element } => ActionView::ScrollIntoView { element: *element },
            Action::ElementHtml { element } => ActionView::ElementHtml { element: *element },
            Action::ElementText { element } => ActionView::ElementText { element: *element },
            Action::Evaluate { page, script } => ActionView::Evaluate {
                page: *page,
                script: script@,
            },
            Action::EvaluateWithin { page, script, limit_ms } => ActionView::EvaluateWithin {
                page: *page,
                script: script@,
                limit_ms: *limit_ms,
            },
            Action::KeyDown { page, key } => ActionView::KeyDown { page: *page, key: key@ },
            Action::KeyUp { page, key } => ActionView::KeyUp { page: *page, key: key@ },
            Action::KeyChar { page, text } => ActionView::KeyChar { page: *page, text: text@ },
            Action::Screenshot { page, full_page, quality } => ActionView::Screenshot {
                page: *page,
                full_page: *full_page,
                quality: *quality,
            },
            Action::ElementScreenshot { element } => ActionView::ElementScreenshot {
                element: *element,
            },
            Action::WriteBytes { path, bytes } => ActionView::WriteBytes {
                path: path@,
                bytes: bytes@,
            },
            Action::WriteText { path, text } => ActionView::WriteText { path: path@, text: text@ },
            Action::ReadCookies { page } => ActionView::ReadCookies { page: *page },
            Action::SetCookie { page, name, value, domain } => ActionView::SetCookie {
                page: *page,
                name: name@,
                value: value@,
                domain: domain@,
            },
            Action::DeleteCookies { page, cookies } => ActionView::DeleteCookies {
                page: *page,
                cookies: cookies.deep_view(),
            },
        }
    }
}

/// A cookie of a page.
#[derive(Debug, PartialEq, Eq)]
pub struct Cookie {
    pub name: String,
    pub value: String,
    pub domain: String,
}

/// The mathematical content of a [`Cookie`].
#[verifier::ext_equal]
pub struct CookieView {
    pub name: Seq<char>,
    pub value: Seq<char>,
    pub domain: Seq<char>,
}

impl DeepView for Cookie {
    type V = CookieView;

    open spec fn deep_view(&self) -> CookieView {
        CookieView { name: self.name@, value: self.value@, domain: self.domain@ }
    }
}

/// What the outside reports of an action.
#[derive(Debug, PartialEq, Eq)]
pub enum Event {
    Done,
    Failed(String),
    TimedOut,
    Flag(bool),
    Text(String),
    Value(Json),
    Bytes(Vec<u8>),
    Millis(u128),
    Process(u32),
    Probe(ProcessProbe),
    Page(PageId),
    Pages(Vec<PageId>),
    Element(ElementId),
    Cookies(Vec<Cookie>),
}

impl Event {
    /// The message of a failure.
    pub open spec fn failure(self) -> Option<Seq<char>> {
        match self {
            Event::Failed(m) => Some(m@),
            _ => None,
        }
    }

    /// Success, unless the event is a failure.
    pub open spec fn outcome(self) -> Result<(), ErrorView> {
        match self {
            Event::Failed(m) => Err(ErrorView::Cdp(m@)),
            _ => Ok(()),
        }
    }

    /// The flag; an event without one says no.
    pub open spec fn flag(self) -> bool {
        self == Event::Flag(true)
    }

    /// The text; an event without one gives the empty text.
    pub open spec fn text(self) -> Seq<char> {
        match self {
            Event::Text(t) => t@,
            _ => seq![],
        }
    }

    /// The text of an event that may fail; an event of another kind gives the empty text.
    pub open spec fn text_or_failure(self) -> Result<Seq<char>, ErrorView> {
        match self {
            Event::Failed(m) => Err(ErrorView::Cdp(m@)),
            _ => Ok(self.text()),
        }
    }

    /// The value of a script; a script without one gives `null`.
    pub open spec fn value(self) -> Result<JsonView, ErrorView> {
        match self {
            Event::Failed(m) => Err(ErrorView::Cdp(m@)),
            Event::Value(v) => Ok(v.deep_view()),
            _ => Ok(JsonView::Null),
        }
    }

    /// The picture; an event of another kind is a failure without a message.
    pub open spec fn bytes(self) -> Result<Seq<u8>, ErrorView> {
        match self {
            Event::Bytes(b) => Ok(b@),
            Event::Failed(m) => Err(ErrorView::Cdp(m@)),
            _ => Err(ErrorView::Cdp(seq![])),
        }
    }

    /// The page; an event of another kind is a failure without a message.
    pub open spec fn page(self) -> Result<PageId, ErrorView> {
        match self {
            Event::Page(p) => Ok(p),
            Event::Failed(m) => Err(ErrorView::Cdp(m@)),
            _ => Err(ErrorView::Cdp(seq![])),
        }
    }

    /// The pages; an event of another kind gives none.
    pub open spec fn pages(self) -> Result<Seq<PageId>, ErrorView> {
        match self {
            Event::Pages(p) => Ok(p@),
            Event::Failed(m) => Err(ErrorView::Cdp(m@)),
            _ => Ok(seq![]),
        }
    }

    /// The element, where one was found.
    pub open spec fn element(self) -> Option<ElementId> {
        match self {
            Event::Element(e) => Some(e),
            _ => None,
        }
    }

    /// The time; an event without one gives 0.
    pub open spec fn millis(self) -> u128 {
        match self {
            Event::Millis(n) => n,
            _ => 0,
        }
    }

    /// Reads [`Event::failure`].
    pub fn is_failure(&self) -> (r: bool)
        ensures
            r == self.failure() is Some,
    {
        matches!(self, Event::Failed(_))
    }

    /// Reads [`Event::outcome`].
    pub fn into_outcome(self) -> (r: Result<(), BrowserError>)
        ensures
            crate::error::result_view(r) == self.outcome(),
    {
        match self {
            Event::Failed(m) => Err(BrowserError::Cdp(m)),
            _ => Ok(()),
        }
    }

    /// Reads [`Event::flag`].
    pub fn is_flag_set(&self) -> (r: bool)
        ensures
            r == self.flag(),
    {
        matches!(self, Event::Flag(true))
    }

    /// Reads [`Event::text`].
    pub fn into_text(self) -> (r: String)
        ensures
            r@ == self.text(),
    {
        match self {
            Event::Text(t) => t,
            _ => String::new(),
        }
    }

    /// Reads [`Event::text_or_failure`].
    pub fn into_text_or_failure(self) -> (r: Result<String, BrowserError>)
        ensures
            crate::error::result_view(r) == self.text_or_failure(),
    {
        match self {
            Event::Failed(m) => Err(BrowserError::Cdp(m)),
            Event::Text(t) => Ok(t),
            _ => Ok(String::new()),
        }
    }

    /// Reads [`Event::value`].
    pub fn into_value(self) -> (r: Result<Json, BrowserError>)
        ensures
            crate::error::result_view(r) == self.value(),
    {
        match self {
            Event::Failed(m) => Err(BrowserError::Cdp(m)),
            Event::Value(v) => Ok(v),
            _ => Ok(Json::Null),
        }
    }

    /// Reads [`Event::bytes`].
    pub fn into_bytes(self) -> (r: Result<Vec<u8>, BrowserError>)
        ensures
            match r {
                Ok(b) => self.bytes() == Ok::<Seq<u8>, ErrorView>(b@),
                Err(e) => self.bytes() == Err::<Seq<u8>, ErrorView>(e.deep_view()),
            },
    {
        match self {
            Event::Bytes(b) => Ok(b),
            Event::Failed(m) => Err(BrowserError::Cdp(m)),
            _ => Err(BrowserError::Cdp(String::new())),
        }
    }

    /// Reads [`Event::page`].
    pub fn into_page(self) -> (r: Result<PageId, BrowserError>)
        ensures
            crate::error::result_view(r) == self.page(),
    {
        match self {
            Event::Page(p) => Ok(p),
            Event::Failed(m) => Err(BrowserError::Cdp(m)),
            _ => Err(BrowserError::Cdp(String::new())),
        }
    }

    /// Reads [`Event::pages`].
    pub fn into_pages(self) -> (r: Result<Vec<PageId>, BrowserError>)
        ensures
            match r {
                Ok(p) => self.pages() == Ok::<Seq<PageId>, ErrorView>(p@),
                Err(e) => self.pages() == Err::<Seq<PageId>, ErrorView>(e.deep_view()),
            },
    {
        match self {
            Event::Pages(p) => Ok(p),
            Event::Failed(m) => Err(BrowserError::Cdp(m)),
            _ => Ok(Vec::new()),
        }
    }

    /// Reads [`Event::element`].
    pub fn into_element(self) -> (r: Option<ElementId>)
        ensures
            r == self.element(),
    {
        match self {
            Event::Element(e) => Some(e),
            _ => None,
        }
    }

    /// Reads [`Event::millis`].
    pub fn into_millis(self) -> (r: u128)
        ensures
            r == self.millis(),
    {
        match self {
            Event::Millis(n) => n,
            _ => 0,
        }
    }
}

/// What comes next in an operation: a request, with the point at which the operation waits for
/// its answer, or the result.
#[derive(Debug)]
pub enum Step<P, T> {
    Ask(Action, P),
    Done(Result<T, BrowserError>),
}

/// The mathematical content of a [`Step`].
#[verifier::ext_equal]
pub enum StepView<P, T> {
    Ask(ActionView, P),
    Done(Result<T, ErrorView>),
}

impl<P: DeepView, T: DeepView> DeepView for Step<P, T> {
    type V = StepView<P::V, T::V>;

    open spec fn deep_view(&self) -> StepView<P::V, T::V> {
        match self {
            Step::Ask(a, p) => StepView::Ask(a.deep_view(), p.deep_view()),
            Step::Done(Ok(t)) => StepView::Done(Ok(t.deep_view())),
            Step::Done(Err(e)) => StepView::Done(Err(e.deep_view())),
        }
    }
}

/// An operation that waits for the answer to its last request.
pub trait Operation: Sized {
    type Output;

    /// Goes on with the event that answers the last request.
    fn resume(self, manager: &mut BrowserManager, event: Event) -> Step<Self, Self::Output>;
}

/// Where an operation stands after the events `events`, and the state then: `next` says what
/// comes after one event, and an operation that is done takes no more of them.
pub open spec fn run<P, T>(
    next: spec_fn(ManagerView, P, Event) -> (ManagerView, StepView<P, T>),
    state: ManagerView,
    step: StepView<P, T>,
    events: Seq<Event>,
) -> (ManagerView, StepView<P, T>)
    decreases events.len(),
{
    match step {
        StepView::Ask(_, stage) if events.len() > 0 => {
            let (state, step) = next(state, stage, events[0]);
            run(next, state, step, events.drop_first())
        },
        _ => (state, step),
    }
}

} // verus!
