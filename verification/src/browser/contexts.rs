//! Contexts: named sets of pages, each with a state of its own, of which one is active.

use vstd::prelude::*;

use crate::browser::session;
use crate::browser::{BrowserContext, BrowserManager, ContextView, ManagerView};
use crate::error::{BrowserError, ErrorView};
use crate::json;
use crate::json::{no_fields, no_items, push_field, push_item, Json, JsonView};
use crate::step::{Action, ActionView, Event, Operation, PageId, Step, StepView};
use crate::text;

verus! {

/// The name under which the default context is kept while another one is active.
pub const DEFAULT_KEY: &'static str = "__default__";

/// The name under which the default context is shown and asked for.
pub const DEFAULT_NAME: &'static str = "default";

/// Creates a context.
#[derive(Debug)]
pub struct CreatingContext<S> {
    pub name: S,
    pub url: S,
}

impl DeepView for CreatingContext<String> {
    type V = CreatingContext<Seq<char>>;

    open spec fn deep_view(&self) -> CreatingContext<Seq<char>> {
        CreatingContext { name: self.name@, url: self.url@ }
    }
}

/// What is reported of a new context.
pub open spec fn created_report(name: Seq<char>, url: Seq<char>) -> Seq<char> {
    "Context '"@ + name + "' created at "@ + url
}

impl ManagerView {
    /// The state with a context of one page under a name.
    pub open spec fn with_context(self, name: Seq<char>, page: PageId) -> ManagerView {
        ManagerView {
            contexts: self.contexts.insert(
                name,
                ContextView { pages: seq![page], active_page_index: 0 },
            ),
            ..self
        }
    }

    /// The first step of creating a context.
    pub open spec fn create_context(self, name: Seq<char>, url: Seq<char>) -> StepView<
        CreatingContext<Seq<char>>,
        Seq<char>,
    > {
        if self.launched {
            StepView::Ask(ActionView::NewContextPage { url }, CreatingContext { name, url })
        } else {
            StepView::Done(Err(ErrorView::NotLaunched))
        }
    }

    /// The end of creating a context, and the state then.
    pub open spec fn create_next(self, stage: CreatingContext<Seq<char>>, event: Event) -> (
        ManagerView,
        StepView<CreatingContext<Seq<char>>, Seq<char>>,
    ) {
        match event.page() {
            Ok(page) => (
                self.with_context(stage.name, page),
                StepView::Done(Ok(created_report(stage.name, stage.url))),
            ),
            Err(e) => (self, StepView::Done(Err(e))),
        }
    }
}

impl Operation for CreatingContext<String> {
    type Output = String;

    fn resume(self, manager: &mut BrowserManager, event: Event) -> (step: Step<Self, String>)
        ensures
            (final(manager)@, step.deep_view()) == old(manager)@.create_next(
                self.deep_view(),
                event,
            ),
    {
        match event.into_page() {
            Ok(page) => {
                let pages: Vec<PageId> = vec![page];
                assert(pages@ =~= seq![page]);
                let context: BrowserContext = BrowserContext { pages, active_page_index: 0 };
                manager.contexts.insert(self.name.as_str(), context);
                Step::Done(
                    Ok(
                        "Context '".to_owned().concat(self.name.as_str()).concat(
                            "' created at ",
                        ).concat(self.url.as_str()),
                    ),
                )
            },
            Err(e) => Step::Done(Err(e)),
        }
    }
}

/// Closes the pages of a context that was destroyed.
#[derive(Debug)]
pub struct DestroyingContext<S, L> {
    /// The pages that are still to be closed.
    pub rest: L,
    /// What is reported at the end.
    pub report: S,
}

impl DeepView for DestroyingContext<String, Vec<PageId>> {
    type V = DestroyingContext<Seq<char>, Seq<PageId>>;

    open spec fn deep_view(&self) -> DestroyingContext<Seq<char>, Seq<PageId>> {
        DestroyingContext { rest: self.rest@, report: self.report@ }
    }
}

/// What is reported of a destroyed context.
pub open spec fn destroyed_report(name: Seq<char>, count: nat) -> Seq<char> {
    "Context '"@ + name + "' destroyed ("@ + text::decimal(count) + " pages closed)"@
}

impl DestroyingContext<Seq<char>, Seq<PageId>> {
    /// Closes the first of the pages; after the last one the end is reported.
    pub open spec fn close(pages: Seq<PageId>, report: Seq<char>) -> StepView<
        DestroyingContext<Seq<char>, Seq<PageId>>,
        Seq<char>,
    > {
        if pages.len() > 0 {
            StepView::Ask(
                ActionView::ClosePage { page: pages[0] },
                DestroyingContext { rest: pages.skip(1), report },
            )
        } else {
            StepView::Done(Ok(report))
        }
    }
}

impl DestroyingContext<Seq<char>, Seq<PageId>> {
    /// What comes after an event: the next page, whatever became of the last one.
    pub open spec fn next(self, event: Event) -> StepView<
        DestroyingContext<Seq<char>, Seq<PageId>>,
        Seq<char>,
    > {
        Self::close(self.rest, self.report)
    }
}

/// Closes the first of the pages; after the last one the end is reported.
fn close_pages(pages: Vec<PageId>, report: String) -> (step: Step<
    DestroyingContext<String, Vec<PageId>>,
    String,
>)
    ensures
        step.deep_view() == DestroyingContext::close(pages@, report@),
{
    let mut rest: Vec<PageId> = pages;
    if rest.len() > 0 {
        let page: PageId = rest.remove(0);
        assert(rest@ =~= pages@.skip(1));
        Step::Ask(Action::ClosePage { page }, DestroyingContext { rest, report })
    } else {
        Step::Done(Ok(report))
    }
}

impl Operation for DestroyingContext<String, Vec<PageId>> {
    type Output = String;

    fn resume(self, manager: &mut BrowserManager, event: Event) -> (step: Step<Self, String>)
        ensures
            final(manager)@ == old(manager)@,
            step.deep_view() == self.deep_view().next(event),
    {
        close_pages(self.rest, self.report)
    }
}

/// Whether a name asks for the default context.
pub open spec fn is_default(name: Seq<char>) -> bool {
    name == DEFAULT_NAME@ || name == DEFAULT_KEY@
}

/// The name under which a context that is asked for is kept.
pub open spec fn kept_under(name: Seq<char>) -> Seq<char> {
    if is_default(name) {
        DEFAULT_KEY@
    } else {
        name
    }
}

/// The name that is active once a context that was asked for is; none for the default one.
pub open spec fn activated(name: Seq<char>) -> Option<Seq<char>> {
    if is_default(name) {
        None
    } else {
        Some(name)
    }
}

/// The message for a name without a context.
pub open spec fn unknown_context(name: Seq<char>) -> ErrorView {
    ErrorView::ElementNotFound("Context '"@ + name + "' not found"@)
}

fn unknown_context_error(name: &str) -> (r: BrowserError)
    ensures
        r.deep_view() == unknown_context(name@),
{
    BrowserError::ElementNotFound("Context '".to_owned().concat(name).concat("' not found"))
}

impl ManagerView {
    /// The name under which the pages of the active context are kept once it is not.
    pub open spec fn current_key(self) -> Seq<char> {
        match self.active_context {
            Some(name) => name,
            None => DEFAULT_KEY@,
        }
    }

    /// The active context as it is kept.
    pub open spec fn current(self) -> ContextView {
        ContextView { pages: self.pages, active_page_index: self.active_page_index }
    }

    /// The state in which the pages of the active context are put away, and no others are there
    /// yet.
    pub open spec fn put_away(self) -> ManagerView {
        ManagerView {
            pages: seq![],
            contexts: self.contexts.insert(self.current_key(), self.current()),
            ..self
        }
    }

    /// The state in which the context kept under a name is active.
    pub open spec fn taken_up(self, name: Seq<char>) -> ManagerView {
        let target: ContextView = self.contexts[kept_under(name)];
        ManagerView {
            pages: target.pages,
            active_page_index: target.active_page_index,
            contexts: self.contexts.remove(kept_under(name)),
            active_context: activated(name),
            ..self
        }
    }

    /// The state after a switch to a context, and what is reported.
    pub open spec fn switch_context(self, name: Seq<char>) -> (
        ManagerView,
        Result<Seq<char>, ErrorView>,
    ) {
        if !is_default(name) && !self.contexts.dom().contains(name) {
            (self, Err(unknown_context(name)))
        } else if is_default(name) && self.active_context is None {
            (self, Ok("Already in default context"@))
        } else if !is_default(name) && self.active_context == Some(name) {
            (self, Ok("Already in context '"@ + name + "'"@))
        } else if !self.put_away().contexts.dom().contains(kept_under(name)) {
            (self.put_away(), Err(unknown_context(name)))
        } else {
            (self.put_away().taken_up(name), Ok("Switched to context '"@ + name + "'"@))
        }
    }

    /// The state after a context was destroyed.
    pub open spec fn without_context(self, name: Seq<char>) -> ManagerView {
        ManagerView {
            contexts: self.contexts.remove(name),
            active_context: if self.active_context == Some(name) {
                None
            } else {
                self.active_context
            },
            ..self
        }
    }

    /// The first step of destroying a context, and the state after it.
    pub open spec fn destroy_context(self, name: Seq<char>) -> (
        ManagerView,
        StepView<DestroyingContext<Seq<char>, Seq<PageId>>, Seq<char>>,
    ) {
        if self.contexts.dom().contains(name) {
            let pages: Seq<PageId> = self.contexts[name].pages;
            (
                self.without_context(name),
                DestroyingContext::close(pages, destroyed_report(name, pages.len())),
            )
        } else {
            (self, StepView::Done(Err(unknown_context(name))))
        }
    }

    /// A page is held: it is one of the active context or of one that is put away.
    pub open spec fn holds(self, page: PageId) -> bool {
        self.pages.contains(page) || exists|name: Seq<char>| #[trigger]
            self.contexts.dom().contains(name) && self.contexts[name].pages.contains(page)
    }

    /// The name under which the active context is shown.
    pub open spec fn shown_context(self) -> Seq<char> {
        match self.active_context {
            Some(name) => name,
            None => DEFAULT_NAME@,
        }
    }

    /// A list of the contexts: the active one, then the others in some order, each once.
    pub open spec fn lists_contexts(self, listed: Seq<JsonView>, order: Seq<Seq<char>>) -> bool {
        &&& order.no_duplicates()
        &&& order.to_set() == self.contexts.dom()
        &&& listed.len() == order.len() + 1
        &&& listed[0] == context_json(self.shown_context(), self.pages.len(), true)
        &&& forall|k: int|
            0 <= k < order.len() ==> #[trigger] listed[k + 1] == context_json(
                order[k],
                self.contexts[order[k]].pages.len(),
                false,
            )
    }
}

/// A context as it is listed.
pub open spec fn context_json(name: Seq<char>, pages: nat, active: bool) -> JsonView {
    JsonView::Object(
        seq![
            ("name"@, JsonView::Text(name)),
            ("pages"@, JsonView::Number(text::decimal(pages))),
            ("active"@, JsonView::Bool(active)),
        ],
    )
}

fn describe_context(name: &str, pages: usize, active: bool) -> (r: Json)
    ensures
        r.deep_view() == context_json(name@, pages as nat, active),
{
    let mut fields: Vec<(String, Json)> = no_fields();
    push_field(&mut fields, "name", Json::text(name));
    push_field(&mut fields, "pages", Json::number(pages as u128));
    push_field(&mut fields, "active", Json::Bool(active));
    assert(json::members(fields@) =~= context_json(name@, pages as nat, active)->Object_0);
    Json::object(fields)
}

fn has_page(pages: &Vec<PageId>, page: PageId) -> (r: bool)
    ensures
        r == pages@.contains(page),
{
    let mut i: usize = 0;
    while i < pages.len()
        invariant
            i <= pages@.len(),
            forall|k: int| 0 <= k < i ==> pages@[k] != page,
        decreases pages@.len() - i,
    {
        if pages[i] == page {
            return true;
        }
        i = i + 1;
    }
    false
}

impl BrowserManager {
    /// Whether a page is one of the active context or of one that is put away. What is known of
    /// a page that is not held can be forgotten.
    pub fn holds_page(&self, page: PageId) -> (r: bool)
        ensures
            r == self@.holds(page),
    {
        if has_page(&self.pages, page) {
            return true;
        }
        let count: usize = self.contexts.len();
        let ghost order: Seq<Seq<char>> = self.contexts.order();
        let mut k: usize = 0;
        while k < count
            invariant
                k <= count,
                count == order.len(),
                order == self.contexts.order(),
                !self@.pages.contains(page),
                forall|i: int|
                    0 <= i < k ==> !self@.contexts[#[trigger] order[i]].pages.contains(page),
            decreases count - k,
        {
            let (name, context) = self.contexts.entry(k);
            if has_page(&context.pages, page) {
                assert(self@.contexts.dom().contains(name@));
                return true;
            }
            k = k + 1;
        }
        assert forall|name: Seq<char>| #[trigger]
            self@.contexts.dom().contains(name) implies !self@.contexts[name].pages.contains(
            page,
        ) by {
            assert(order.to_set().contains(name));
            let i = choose|i: int| 0 <= i < order.len() && order[i] == name;
            assert(order[i] == name);
        }
        false
    }

    /// Creates a context with a page of its own, which shares no state with any other context. It
    /// does not become the active one.
    pub fn create_context(&mut self, name: &str, url: Option<&str>) -> (step: Step<
        CreatingContext<String>,
        String,
    >)
        ensures
            final(self)@ == old(self)@,
            step.deep_view() == old(self)@.create_context(
                name@,
                session::address_or_blank(
                    match url {
                        Some(u) => Some(u@),
                        None => None,
                    },
                ),
            ),
    {
        if self.launched {
            let target: &str = match url {
                Some(u) => u,
                None => session::BLANK,
            };
            Step::Ask(
                Action::NewContextPage { url: target.to_owned() },
                CreatingContext { name: name.to_owned(), url: target.to_owned() },
            )
        } else {
            Step::Done(Err(BrowserError::NotLaunched))
        }
    }

    fn is_active_context(&self, name: &str) -> (r: bool)
        ensures
            r == (self@.active_context == Some(name@)),
    {
        match &self.active_context {
            Some(active) => text::same_text(active.as_str(), name),
            None => false,
        }
    }

    /// Makes another context the active one and puts the pages of the present one away.
    pub fn switch_context(&mut self, name: &str) -> (r: Result<String, BrowserError>)
        ensures
            (final(self)@, crate::error::result_view(r)) == old(self)@.switch_context(name@),
    {
        let default: bool = text::same_text(name, DEFAULT_NAME) || text::same_text(
            name,
            DEFAULT_KEY,
        );
        if !default && !self.contexts.contains(name) {
            return Err(unknown_context_error(name));
        }
        if default && self.active_context.is_none() {
            return Ok("Already in default context".to_owned());
        }
        if !default && self.is_active_context(name) {
            return Ok("Already in context '".to_owned().concat(name).concat("'"));
        }
        let current: String = match &self.active_context {
            Some(active) => active.clone(),
            None => DEFAULT_KEY.to_owned(),
        };
        let mut pages: Vec<PageId> = Vec::new();
        std::mem::swap(&mut pages, &mut self.pages);
        let saved: BrowserContext = BrowserContext {
            pages,
            active_page_index: self.active_page_index,
        };
        self.contexts.insert(current.as_str(), saved);
        assert(self@ =~= old(self)@.put_away());
        let key: &str = if default {
            DEFAULT_KEY
        } else {
            name
        };
        match self.contexts.remove(key) {
            Some(target) => {
                self.pages = target.pages;
                self.active_page_index = target.active_page_index;
                self.active_context = if default {
                    None
                } else {
                    Some(name.to_owned())
                };
                assert(self@ =~= old(self)@.put_away().taken_up(name@));
                Ok("Switched to context '".to_owned().concat(name).concat("'"))
            },
            None => {
                assert(self@ =~= old(self)@.put_away());
                Err(unknown_context_error(name))
            },
        }
    }

    /// Destroys a context that is put away and closes its pages. A page that cannot be closed
    /// does not stop the others.
    pub fn destroy_context(&mut self, name: &str) -> (step: Step<
        DestroyingContext<String, Vec<PageId>>,
        String,
    >)
        ensures
            (final(self)@, step.deep_view()) == old(self)@.destroy_context(name@),
    {
        match self.contexts.remove(name) {
            Some(context) => {
                if self.is_active_context(name) {
                    self.active_context = None;
                }
                assert(self@ =~= old(self)@.without_context(name@));
                let mut report: String = "Context '".to_owned().concat(name).concat(
                    "' destroyed (",
                );
                text::push_decimal(&mut report, context.pages.len() as u128);
                report.append(" pages closed)");
                close_pages(context.pages, report)
            },
            None => {
                assert(self@ =~= old(self)@);
                Step::Done(Err(unknown_context_error(name)))
            },
        }
    }

    /// Lists the contexts, the active one first.
    pub fn list_contexts(&self) -> (r: Vec<Json>)
        ensures
            exists|order: Seq<Seq<char>>| self@.lists_contexts(r.deep_view(), order),
    {
        let shown: &str = match &self.active_context {
            Some(active) => active.as_str(),
            None => DEFAULT_NAME,
        };
        let mut r: Vec<Json> = no_items();
        push_item(&mut r, describe_context(shown, self.pages.len(), true));
        let count: usize = self.contexts.len();
        let ghost order: Seq<Seq<char>> = self.contexts.order();
        let mut k: usize = 0;
        while k < count
            invariant
                k <= count,
                count == order.len(),
                order == self.contexts.order(),
                r.deep_view().len() == k + 1,
                r.deep_view()[0] == context_json(self@.shown_context(), self@.pages.len(), true),
                forall|i: int|
                    0 <= i < k ==> #[trigger] r.deep_view()[i + 1] == context_json(
                        order[i],
                        self@.contexts[order[i]].pages.len(),
                        false,
                    ),
            decreases count - k,
        {
            let (name, context) = self.contexts.entry(k);
            push_item(&mut r, describe_context(name, context.pages.len(), false));
            k = k + 1;
        }
        assert(self@.lists_contexts(r.deep_view(), order));
        r
    }
}

} // verus!
