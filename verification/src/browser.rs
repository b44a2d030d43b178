//! The browser manager: its state, and the operations on it that ask nothing of the outside.

use vstd::prelude::*;

use crate::error::{BrowserError, ErrorView};
use crate::json::{no_fields, push_field, Json, JsonView};
use crate::step::PageId;

pub mod contexts;
pub mod effects;
pub mod evaluation;
pub mod input;
pub mod isolation;
pub mod laws;
pub mod outcomes;
pub mod page;
pub mod requests;
pub mod routes;
pub mod rules;
pub mod session;
pub mod table;
pub mod tabs;
pub mod trace;
pub mod wait;

pub use self::routes::{RouteAction, RouteRule, RouteView};
pub use self::table::{BrowserContext, ContextTable, ContextView};

verus! {

/// What a manager knows of the browser: its pages, the routes for its requests, its contexts
/// and the trace being recorded.
pub struct BrowserManager {
    launched: bool,
    pages: Vec<PageId>,
    active_page_index: usize,
    headless: bool,
    current_url: String,
    routes: Vec<RouteRule>,
    interception_active: bool,
    contexts: ContextTable,
    active_context: Option<String>,
    trace_active: bool,
    trace_entries: Vec<Json>,
}

/// The mathematical content of a [`BrowserManager`].
#[verifier::ext_equal]
pub struct ManagerView {
    /// A browser is connected.
    pub launched: bool,
    /// The pages of the active context, in tab order.
    pub pages: Seq<PageId>,
    /// The place of the active page among them.
    pub active_page_index: int,
    /// How a browser was launched last, and is launched again.
    pub headless: bool,
    /// The address that was asked for last.
    pub current_url: Seq<char>,
    /// The routes for requests, oldest first.
    pub routes: Seq<RouteView>,
    /// The interception of requests is installed.
    pub interception_active: bool,
    /// The contexts that are not active, by name.
    pub contexts: Map<Seq<char>, ContextView>,
    /// The name of the active context; none for the default one.
    pub active_context: Option<Seq<char>>,
    /// A trace is being recorded.
    pub trace_active: bool,
    /// What was recorded so far, oldest first.
    pub trace_entries: Seq<JsonView>,
}

impl View for BrowserManager {
    type V = ManagerView;

    closed spec fn view(&self) -> ManagerView {
        ManagerView {
            launched: self.launched,
            pages: self.pages@,
            active_page_index: self.active_page_index as int,
            headless: self.headless,
            current_url: self.current_url@,
            routes: self.routes.deep_view(),
            interception_active: self.interception_active,
            contexts: self.contexts@,
            active_context: self.active_context.deep_view(),
            trace_active: self.trace_active,
            trace_entries: self.trace_entries.deep_view(),
        }
    }
}

impl ManagerView {
    /// The state of a new manager.
    pub open spec fn initial() -> ManagerView {
        ManagerView {
            launched: false,
            pages: seq![],
            active_page_index: 0,
            headless: true,
            current_url: seq![],
            routes: seq![],
            interception_active: false,
            contexts: Map::empty(),
            active_context: None,
            trace_active: false,
            trace_entries: seq![],
        }
    }

    /// The active page, where there is one.
    pub open spec fn page(self) -> Option<PageId> {
        if 0 <= self.active_page_index < self.pages.len() {
            Some(self.pages[self.active_page_index])
        } else {
            None
        }
    }

    /// The state after the browser was given up.
    pub open spec fn closed(self) -> ManagerView {
        ManagerView { launched: false, pages: seq![], active_page_index: 0, ..self }
    }

    /// The state after a browser with these pages was connected.
    pub open spec fn connected(self, pages: Seq<PageId>, headless: bool) -> ManagerView {
        ManagerView { launched: true, pages, active_page_index: 0, headless, ..self }
    }

    /// What the status shows.
    pub open spec fn status(self) -> JsonView {
        JsonView::Object(
            seq![
                ("active"@, JsonView::Bool(self.launched)),
                ("headless"@, JsonView::Bool(self.headless)),
                ("current_url"@, JsonView::Text(self.current_url)),
                ("tab_count"@, JsonView::Number(crate::text::decimal(self.pages.len()))),
                (
                    "active_tab"@,
                    JsonView::Number(crate::text::decimal(self.active_page_index as nat)),
                ),
            ],
        )
    }
}

impl BrowserManager {
    /// A manager without a browser.
    pub fn new() -> (r: BrowserManager)
        ensures
            r@ == ManagerView::initial(),
    {
        let r: BrowserManager = BrowserManager {
            launched: false,
            pages: Vec::new(),
            active_page_index: 0,
            headless: true,
            current_url: String::new(),
            routes: Vec::new(),
            interception_active: false,
            contexts: ContextTable::new(),
            active_context: None,
            trace_active: false,
            trace_entries: Vec::new(),
        };
        assert(r@ =~= ManagerView::initial());
        r
    }

    /// The active page.
    pub fn page(&self) -> (r: Result<PageId, BrowserError>)
        ensures
            crate::error::result_view(r) == match self@.page() {
                Some(page) => Ok::<PageId, ErrorView>(page),
                None => Err(ErrorView::NoPage),
            },
    {
        if self.active_page_index < self.pages.len() {
            Ok(self.pages[self.active_page_index])
        } else {
            Err(BrowserError::NoPage)
        }
    }

    /// Gives the browser and the pages of the active context up.
    pub fn close(&mut self) -> (r: Result<(), BrowserError>)
        ensures
            r is Ok,
            final(self)@ == old(self)@.closed(),
    {
        self.pages.clear();
        self.active_page_index = 0;
        self.launched = false;
        Ok(())
    }

    /// What the manager shows of its state.
    pub fn status(&self) -> (r: Json)
        ensures
            r.deep_view() == self@.status(),
    {
        let mut fields: Vec<(String, Json)> = no_fields();
        push_field(&mut fields, "active", Json::Bool(self.launched));
        push_field(&mut fields, "headless", Json::Bool(self.headless));
        push_field(&mut fields, "current_url", Json::text(self.current_url.as_str()));
        push_field(&mut fields, "tab_count", Json::number(self.pages.len() as u128));
        push_field(&mut fields, "active_tab", Json::number(self.active_page_index as u128));
        assert(crate::json::members(fields@) =~= self@.status()->Object_0);
        Json::object(fields)
    }

    /// Takes a browser with these pages over.
    fn connect(&mut self, pages: Vec<PageId>, headless: bool)
        ensures
            final(self)@ == old(self)@.connected(pages@, headless),
    {
        self.launched = true;
        self.pages = pages;
        self.active_page_index = 0;
        self.headless = headless;
    }
}

} // verus!
