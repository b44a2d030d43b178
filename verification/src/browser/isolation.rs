//! Contexts stay apart: laws on whole histories of a manager, in which every page lives in one
//! context of the browser.

use vstd::prelude::*;

use crate::browser::contexts;
use crate::browser::page::ReadingCookies;
use crate::browser::session::{Attaching, Launching};
use crate::browser::{ContextView, ManagerView};
use crate::json::JsonView;
use crate::step::{ActionView, CookieView, Event, PageId, StepView};

verus! {

/// Where pages live: the contexts of the browser have numbers, 0 for the one that it started
/// with, and `next` is the number of the next new one.
pub struct Homes {
    pub of: Map<PageId, int>,
    pub next: int,
}

impl Homes {
    /// Before any page was opened.
    pub open spec fn initial() -> Homes {
        Homes { of: Map::empty(), next: 1 }
    }

    /// After a page was opened on request, as the request says: in a new context, in that of
    /// another page, or in the one that the browser started with.
    pub open spec fn opened(self, page: PageId, action: ActionView) -> Homes {
        match action {
            ActionView::NewContextPage { .. } => Homes {
                of: self.of.insert(page, self.next),
                next: self.next + 1,
            },
            ActionView::NewPageBeside { page: other, .. } => Homes {
                of: self.of.insert(page, self.of[other]),
                ..self
            },
            _ => Homes { of: self.of.insert(page, 0), ..self },
        }
    }

    /// After the pages of a browser were found, in the context that it started with.
    pub open spec fn found(self, pages: Seq<PageId>) -> Homes {
        Homes {
            of: Map::new(
                |page: PageId| self.of.dom().contains(page) || pages.contains(page),
                |page: PageId|
                    if pages.contains(page) {
                        0
                    } else {
                        self.of[page]
                    },
            ),
            ..self
        }
    }

    /// All of the pages live in the context that the browser started with.
    pub open spec fn first(self, pages: Seq<PageId>) -> bool {
        forall|i: int|
            0 <= i < pages.len() ==> self.of.dom().contains(#[trigger] pages[i])
                && self.of[pages[i]] == 0
    }

    /// All of the pages live in one context that was opened for them.
    pub open spec fn own(self, pages: Seq<PageId>) -> bool {
        &&& forall|i: int|
            0 <= i < pages.len() ==> self.of.dom().contains(#[trigger] pages[i]) && 0
                < self.of[pages[i]] < self.next
        &&& forall|i: int, j: int|
            0 <= i < pages.len() && 0 <= j < pages.len() ==> self.of[#[trigger] pages[i]]
                == self.of[#[trigger] pages[j]]
    }

    /// No page of the one lives where a page of the other does.
    pub open spec fn apart(self, pages: Seq<PageId>, others: Seq<PageId>) -> bool {
        forall|i: int, j: int|
            0 <= i < pages.len() && 0 <= j < others.len() ==> self.of[#[trigger] pages[i]]
                != self.of[#[trigger] others[j]]
    }
}

/// One thing that happens to a manager and may change its pages or its contexts.
pub enum Move {
    /// A browser was launched and opened a page.
    Launch { headless: bool, page: PageId },
    /// A browser was attached; the event tells the address of its first page.
    Attach { pages: Seq<PageId>, address: Event },
    /// The browser was given up.
    GiveUp,
    /// A tab was opened.
    OpenTab { page: PageId },
    /// A tab was closed, or could not be, as the event says.
    CloseTab { index: int, event: Event },
    /// A context was created.
    Create { name: Seq<char>, url: Seq<char>, page: PageId },
    /// A context was switched to.
    Switch { name: Seq<char> },
    /// A context was destroyed.
    Destroy { name: Seq<char> },
    /// Something happened that concerns neither pages nor contexts.
    Other { to: ManagerView },
}

impl Move {
    /// What becomes of the manager and of where pages live.
    pub open spec fn make(self, state: ManagerView, homes: Homes) -> (ManagerView, Homes) {
        match self {
            Move::Launch { headless, page } => (
                state.launch_next(Launching::Opening { headless }, Event::Page(page)),
                homes.opened(
                    page,
                    Launching::Launching { headless }.next(Event::Done)->Ask_0,
                ),
            ),
            Move::Attach { pages, address } => (
                state.attach_next(Attaching::Reading { pages }, address),
                homes.found(pages),
            ),
            Move::GiveUp => (state.closed(), homes),
            Move::OpenTab { page } => match state.new_page() {
                StepView::Ask(action, _) => (state.with_tab(page), homes.opened(page, action)),
                StepView::Done(_) => (state, homes),
            },
            Move::CloseTab { index, event } => match state.close_tab(index) {
                (after, StepView::Ask(_, stage)) => (after.close_tab_next(stage, event).0, homes),
                (after, StepView::Done(_)) => (after, homes),
            },
            Move::Create { name, url, page } => match state.create_context(name, url) {
                StepView::Ask(action, stage) => (
                    state.create_next(stage, Event::Page(page)).0,
                    homes.opened(page, action),
                ),
                StepView::Done(_) => (state, homes),
            },
            Move::Switch { name } => (state.switch_context(name).0, homes),
            Move::Destroy { name } => (state.destroy_context(name).0, homes),
            Move::Other { to } => (to, homes),
        }
    }

    /// A page that is opened or found is a new one, and what concerns neither pages nor contexts
    /// leaves both alone. Left out is what counts pages to a context in which they do not live:
    /// a browser that is launched or attached while a named context is active, a context that is
    /// created under the name that the default one is kept under, and what is kept under the name
    /// of the active context being destroyed, which makes the active pages those of the default
    /// one.
    pub open spec fn fair(self, state: ManagerView, homes: Homes) -> bool {
        match self {
            Move::Launch { headless: _, page } => state.active_context is None
                && !homes.of.dom().contains(page),
            Move::Attach { pages, address: _ } => {
                &&& state.active_context is None
                &&& forall|i: int|
                    0 <= i < pages.len() ==> !homes.of.dom().contains(#[trigger] pages[i])
            },
            Move::GiveUp => true,
            Move::OpenTab { page } => !homes.of.dom().contains(page),
            Move::CloseTab { index, event: _ } => index >= 0,
            Move::Create { name, url: _, page } => name != contexts::DEFAULT_KEY@
                && !homes.of.dom().contains(page),
            Move::Switch { name: _ } => true,
            Move::Destroy { name } => state.active_context != Some(name),
            Move::Other { to } => to.pages == state.pages && to.contexts == state.contexts
                && to.active_context == state.active_context,
        }
    }
}

/// Where a manager stands after moves from its beginning, and where the pages live then.
pub open spec fn history(moves: Seq<Move>) -> (ManagerView, Homes)
    decreases moves.len(),
{
    if moves.len() == 0 {
        (ManagerView::initial(), Homes::initial())
    } else {
        let (state, homes) = history(moves.drop_last());
        moves.last().make(state, homes)
    }
}

/// All of the moves are fair where they are made.
pub open spec fn fair_history(moves: Seq<Move>) -> bool
    decreases moves.len(),
{
    moves.len() > 0 ==> {
        let (state, homes) = history(moves.drop_last());
        fair_history(moves.drop_last()) && moves.last().fair(state, homes)
    }
}

/// The pages of a context that is kept under a name live where they should: those of the default
/// one where the browser started, those of a named one in a context of their own.
pub open spec fn at_home(homes: Homes, name: Seq<char>, context: ContextView) -> bool {
    if name == contexts::DEFAULT_KEY@ {
        homes.first(context.pages)
    } else {
        homes.own(context.pages)
    }
}

/// Contexts are separate: the pages of the default one live where the browser started, those of
/// each named one in a context of their own, and no two contexts share one.
pub open spec fn separate(state: ManagerView, homes: Homes) -> bool {
    &&& homes.next > 0
    &&& match state.active_context {
        Some(name) => !contexts::is_default(name),
        None => !state.contexts.dom().contains(contexts::DEFAULT_KEY@),
    }
    &&& at_home(homes, state.current_key(), state.current())
    &&& forall|name: Seq<char>| #[trigger]
        state.contexts.dom().contains(name) ==> {
            &&& at_home(homes, name, state.contexts[name])
            &&& homes.apart(state.pages, state.contexts[name].pages)
        }
    &&& forall|a: Seq<char>, b: Seq<char>|
        #![trigger state.contexts.dom().contains(a), state.contexts.dom().contains(b)]
        state.contexts.dom().contains(a) && state.contexts.dom().contains(b) && a != b
            ==> homes.apart(state.contexts[a].pages, state.contexts[b].pages)
}

proof fn lemma_move_separate(state: ManagerView, homes: Homes, step: Move)
    requires
        separate(state, homes),
        step.fair(state, homes),
    ensures
        separate(step.make(state, homes).0, step.make(state, homes).1),
{
}

/// Contexts stay separate through every fair history, from a new manager on.
pub proof fn lemma_contexts_separate(moves: Seq<Move>)
    requires
        fair_history(moves),
    ensures
        separate(history(moves).0, history(moves).1),
    decreases moves.len(),
{
    if moves.len() > 0 {
        lemma_contexts_separate(moves.drop_last());
        let (state, homes) = history(moves.drop_last());
        lemma_move_separate(state, homes, moves.last());
    }
}

/// Where a page came from: after a fair history each page of a named context lives in a context
/// of the browser that was opened for it, and no page of any other context lives there.
pub proof fn lemma_pages_apart(moves: Seq<Move>, name: Seq<char>, page: PageId, other: PageId)
    requires
        fair_history(moves),
        history(moves).0.contexts.dom().contains(name),
        history(moves).0.contexts[name].pages.contains(page),
        name != contexts::DEFAULT_KEY@,
        ({
            let state = history(moves).0;
            ||| state.pages.contains(other)
            ||| exists|n: Seq<char>| #[trigger]
                state.contexts.dom().contains(n) && n != name
                    && state.contexts[n].pages.contains(other)
        }),
    ensures
        history(moves).1.of[page] > 0,
        history(moves).1.of[page] != history(moves).1.of[other],
{
    lemma_contexts_separate(moves);
    let (state, homes) = history(moves);
    let pages = state.contexts[name].pages;
    let i = choose|i: int| 0 <= i < pages.len() && pages[i] == page;
    assert(homes.own(pages));
    assert(pages[i] == page);
    if state.pages.contains(other) {
        let j = choose|j: int| 0 <= j < state.pages.len() && state.pages[j] == other;
        assert(homes.apart(state.pages, pages));
        assert(state.pages[j] == other);
    } else {
        let n = choose|n: Seq<char>| #[trigger]
            state.contexts.dom().contains(n) && n != name && state.contexts[n].pages.contains(
                other,
            );
        let others = state.contexts[n].pages;
        let j = choose|j: int| 0 <= j < others.len() && others[j] == other;
        assert(homes.apart(pages, others));
        assert(others[j] == other);
    }
}

/// The cookies of each context of the browser after a request to set one: it goes where the page
/// of the request lives.
pub open spec fn after_request(
    jars: Map<int, Seq<CookieView>>,
    homes: Homes,
    action: ActionView,
) -> Map<int, Seq<CookieView>> {
    match action {
        ActionView::SetCookie { page, name, value, domain } => {
            let home: int = homes.of[page];
            jars.insert(home, jars[home].push(CookieView { name, value, domain }))
        },
        _ => jars,
    }
}

/// Cookies do not pass from one context to another, in either direction: after any fair history,
/// a cookie that is set in the active context goes to the jar of its page, and when another
/// context is switched to, its cookies are asked for of a page with another jar, which is as it
/// was.
pub proof fn lemma_cookies_apart(
    moves: Seq<Move>,
    jars: Map<int, Seq<CookieView>>,
    cookie: CookieView,
    name: Seq<char>,
    page: PageId,
    other: PageId,
)
    requires
        fair_history(moves),
        history(moves).0.page() == Some(page),
        history(moves).0.active_context != contexts::activated(name),
        history(moves).0.contexts.dom().contains(contexts::kept_under(name)),
        history(moves).0.switch_context(name).0.page() == Some(other),
    ensures
        ({
            let (state, homes) = history(moves);
            let (after, report) = state.switch_context(name);
            let request = state.set_cookie(cookie);
            &&& request matches StepView::Ask(action, _)
            &&& report is Ok
            &&& after.active_context == contexts::activated(name)
            &&& after.get_cookies() == StepView::<ReadingCookies, Seq<JsonView>>::Ask(
                ActionView::ReadCookies { page: other },
                ReadingCookies::Browser,
            )
            &&& homes.of[page] != homes.of[other]
            &&& after_request(jars, homes, action)[homes.of[page]]
                == jars[homes.of[page]].push(cookie)
            &&& after_request(jars, homes, action)[homes.of[other]] == jars[homes.of[other]]
        }),
{
    lemma_contexts_separate(moves);
    let (state, homes) = history(moves);
    let kept = contexts::kept_under(name);
    let after = state.switch_context(name).0;
    assert(after.pages == state.contexts[kept].pages);
    assert(homes.apart(state.pages, state.contexts[kept].pages));
    assert(state.pages[state.active_page_index] == page);
    assert(after.pages[after.active_page_index] == other);
}

} // verus!
