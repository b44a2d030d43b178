//! What holds of the manager as a whole: laws that relate several operations.

use vstd::prelude::*;

use crate::browser::contexts;
use crate::browser::contexts::CreatingContext;
use crate::browser::routes;
use crate::browser::session::{Attaching, EnsuringAlive, Launching};
use crate::browser::tabs::SwitchingTab;
use crate::browser::trace::{SavingTrace, StoppingTrace};
use crate::browser::{ContextView, ManagerView, RouteView};
use crate::error::ErrorView;
use crate::json::JsonView;
use crate::step::{Event, PageId, StepView};

verus! {

impl ContextView {
    /// The active page of a context is one of its pages, where it has any.
    pub open spec fn placed(self) -> bool {
        &&& self.active_page_index >= 0
        &&& self.pages.len() > 0 ==> self.active_page_index < self.pages.len()
    }
}

impl ManagerView {
    /// What every operation keeps, but for a tab that could not be closed: the active page of
    /// each context is one of its pages, where it has any, and no context is active under a name
    /// that stands for the default one.
    pub open spec fn consistent(self) -> bool {
        &&& self.current().placed()
        &&& forall|name: Seq<char>| #[trigger]
            self.contexts.dom().contains(name) ==> self.contexts[name].placed()
        &&& match self.active_context {
            Some(name) => !contexts::is_default(name),
            None => true,
        }
    }
}

/// A new manager is consistent, has no page and no browser.
pub proof fn lemma_initial()
    ensures
        ManagerView::initial().consistent(),
        ManagerView::initial().page() is None,
        !ManagerView::initial().launched,
{
}

/// Where there are pages, a consistent manager has an active one.
pub proof fn lemma_active_page(state: ManagerView)
    requires
        state.consistent(),
    ensures
        state.page() is Some <==> state.pages.len() > 0,
{
}

/// Launching, attaching, recovering and closing keep a manager consistent.
pub proof fn lemma_sessions_keep_consistent(
    state: ManagerView,
    launch: Launching,
    attach: Attaching<Seq<char>, Seq<PageId>>,
    ensure: EnsuringAlive,
    event: Event,
)
    requires
        state.consistent(),
    ensures
        state.closed().consistent(),
        state.recovered().consistent(),
        state.launch_next(launch, event).consistent(),
        state.attach_next(attach, event).consistent(),
        state.ensure_state(ensure, event).consistent(),
{
}

/// Opening a tab, switching to one and closing one keep a manager consistent, a tab that could
/// not be closed excepted.
pub proof fn lemma_tabs_keep_consistent(state: ManagerView, page: PageId, index: int, event: Event)
    requires
        state.consistent(),
        index >= 0,
    ensures
        state.with_tab(page).consistent(),
        index < state.pages.len() ==> state.with_active(index).consistent(),
        match state.close_tab(index) {
            (after, StepView::Done(_)) => after.consistent(),
            (after, StepView::Ask(_, stage)) => event.outcome() is Ok ==> after.close_tab_next(
                stage,
                event,
            ).0.consistent(),
        },
{
}

/// Looking for a tab by its address keeps a manager consistent.
pub proof fn lemma_seeking_keeps_consistent(
    state: ManagerView,
    stage: SwitchingTab<Seq<char>>,
    url: Seq<char>,
)
    requires
        state.consistent(),
        stage.index < state.pages.len(),
    ensures
        state.seek_next(stage, url).0.consistent(),
{
}

/// Creating, switching and destroying contexts keep a manager consistent.
pub proof fn lemma_contexts_keep_consistent(
    state: ManagerView,
    name: Seq<char>,
    stage: CreatingContext<Seq<char>>,
    event: Event,
)
    requires
        state.consistent(),
    ensures
        state.create_next(stage, event).0.consistent(),
        state.switch_context(name).0.consistent(),
        state.destroy_context(name).0.consistent(),
{
    let away = state.put_away();
    assert forall|n: Seq<char>| #[trigger]
        away.contexts.dom().contains(n) implies away.contexts[n].placed() by {
        if n != state.current_key() {
            assert(state.contexts.dom().contains(n));
        }
    }
    let created = state.create_next(stage, event).0;
    assert forall|n: Seq<char>| #[trigger]
        created.contexts.dom().contains(n) implies created.contexts[n].placed() by {
        if n != stage.name {
            assert(state.contexts.dom().contains(n));
        }
    }
}

/// Routes, traces and the current address keep a manager consistent.
pub proof fn lemma_records_keep_consistent(
    state: ManagerView,
    url: Seq<char>,
    route: RouteView,
    pattern: Seq<char>,
    entry: JsonView,
    stop: StoppingTrace<JsonView>,
    save: SavingTrace<Seq<char>, JsonView>,
    event: Event,
)
    requires
        state.consistent(),
    ensures
        (ManagerView { current_url: url, ..state }).consistent(),
        state.with_route(route).consistent(),
        state.without_route(pattern).consistent(),
        state.intercepting().consistent(),
        state.passing().consistent(),
        state.with_entry(entry).consistent(),
        state.trace_start().0.consistent(),
        state.trace_start_next(event).0.consistent(),
        state.trace_stop_next(stop, event).0.consistent(),
        state.trace_save_next(save, event).0.consistent(),
{
}

/// A browser that was given up leaves no page behind, and nothing but the tabs and the browser
/// is forgotten.
pub proof fn lemma_closed(state: ManagerView)
    ensures
        state.closed().page() is None,
        !state.closed().launched,
        state.closed().contexts == state.contexts,
        state.closed().routes == state.routes,
        state.closed().headless == state.headless,
        state.closed().closed() == state.closed(),
{
}

/// Closing another tab than the active one leaves the active page active.
pub proof fn lemma_close_tab_keeps_active(state: ManagerView, index: int, event: Event)
    requires
        state.consistent(),
        0 <= index < state.pages.len() <= usize::MAX,
        index != state.active_page_index,
        event.outcome() is Ok,
    ensures
        state.close_tab(index).1 is Ask,
        ({
            let (after, step) = state.close_tab(index);
            let end = after.close_tab_next(step->Ask_1, event).0;
            &&& end.page() == state.page()
            &&& end.pages == state.pages.remove(index)
        }),
{
}

/// Closing the active tab makes the one after it active, or the one before it where it was the
/// last.
pub proof fn lemma_close_active_tab(state: ManagerView, event: Event)
    requires
        state.consistent(),
        2 <= state.pages.len() <= usize::MAX,
        event.outcome() is Ok,
    ensures
        ({
            let index = state.active_page_index;
            let (after, step) = state.close_tab(index);
            let end = after.close_tab_next(step->Ask_1, event).0;
            end.page() == Some(
                if index + 1 < state.pages.len() {
                    state.pages[index + 1]
                } else {
                    state.pages[index - 1]
                },
            )
        }),
{
}

/// The last tab cannot be closed.
pub proof fn lemma_last_tab_stays(state: ManagerView, index: int)
    requires
        state.pages.len() <= 1,
        index >= 0,
    ensures
        state.close_tab(index).0 == state,
        state.close_tab(index).1 matches StepView::Done(Err(ErrorView::Cdp(_))),
{
}

/// A new tab is active, and the others stay where they were.
pub proof fn lemma_new_tab(state: ManagerView, page: PageId)
    ensures
        state.with_tab(page).page() == Some(page),
        state.with_tab(page).pages.drop_last() == state.pages,
{
    assert(state.with_tab(page).pages.drop_last() =~= state.pages);
}

/// A switch to another context and back again restores the tabs, the active tab and the active
/// context. The contexts that are put away are the same again, but for one that was kept under
/// the name of the active one.
pub proof fn lemma_switch_round_trip(state: ManagerView, name: Seq<char>)
    requires
        state.consistent(),
        !contexts::is_default(name),
        state.contexts.dom().contains(name),
        state.active_context != Some(name),
    ensures
        state.switch_context(name).1 is Ok,
        state.switch_context(name).0.switch_context(state.shown_context()).1 is Ok,
        state.switch_context(name).0.switch_context(state.shown_context()).0 == (ManagerView {
            contexts: state.contexts.remove(state.current_key()),
            ..state
        }),
{
    let key = state.current_key();
    assert(name != key);
    let there = state.switch_context(name).0;
    assert(there == state.put_away().taken_up(name));
    let back = state.shown_context();
    assert(contexts::kept_under(back) == key);
    assert(there.contexts.dom().contains(key));
    assert(there.current() == state.contexts[name]);
    let end = there.switch_context(back).0;
    assert(end == there.put_away().taken_up(back));
    assert(end.contexts =~= state.contexts.remove(key));
    assert(end.pages =~= state.pages);
}

/// The same where nothing is kept under the name of the active context: then a switch and a
/// switch back change nothing at all.
pub proof fn lemma_switch_and_back(state: ManagerView, name: Seq<char>)
    requires
        state.consistent(),
        !contexts::is_default(name),
        state.contexts.dom().contains(name),
        state.active_context != Some(name),
        !state.contexts.dom().contains(state.current_key()),
    ensures
        state.switch_context(name).0.switch_context(state.shown_context()).0 == state,
{
    lemma_switch_round_trip(state, name);
    assert(state.contexts.remove(state.current_key()) =~= state.contexts);
}

/// A switch, be it refused or not, holds the same pages as before, where nothing is kept under
/// the name of the active context.
pub proof fn lemma_switch_holds(state: ManagerView, name: Seq<char>, page: PageId)
    requires
        !state.contexts.dom().contains(state.current_key()),
    ensures
        state.switch_context(name).0.holds(page) == state.holds(page),
{
    let key = state.current_key();
    let away = state.put_away();
    let after = state.switch_context(name).0;
    let target = contexts::kept_under(name);
    assert(away.contexts.dom().contains(key));
    assert(away.contexts[key].pages == state.pages);
    if state.holds(page) {
        if !state.pages.contains(page) {
            let n = choose|n: Seq<char>| #[trigger]
                state.contexts.dom().contains(n) && state.contexts[n].pages.contains(page);
            assert(n != key);
            assert(away.contexts.dom().contains(n) && away.contexts[n] == state.contexts[n]);
            if after == away.taken_up(name) && n != target {
                assert(after.contexts.dom().contains(n) && after.contexts[n] == state.contexts[n]);
            }
        } else if after == away.taken_up(name) && key != target {
            assert(after.contexts.dom().contains(key) && after.contexts[key].pages == state.pages);
        }
    }
    if after.holds(page) && after != state {
        if after.pages.contains(page) {
            assert(after == away.taken_up(name));
            if target != key {
                assert(state.contexts.dom().contains(target));
            }
        } else {
            let n = choose|n: Seq<char>| #[trigger]
                after.contexts.dom().contains(n) && after.contexts[n].pages.contains(page);
            if n != key {
                assert(state.contexts.dom().contains(n) && state.contexts[n] == after.contexts[n]);
            }
        }
    }
}

/// A context that was created can be switched to, and shows its one page then.
pub proof fn lemma_created_context(
    state: ManagerView,
    stage: CreatingContext<Seq<char>>,
    page: PageId,
)
    requires
        state.consistent(),
        !contexts::is_default(stage.name),
        state.active_context != Some(stage.name),
    ensures
        ({
            let created = state.create_next(stage, Event::Page(page)).0;
            let (after, report) = created.switch_context(stage.name);
            &&& report is Ok
            &&& after.pages == seq![page]
            &&& after.page() == Some(page)
            &&& after.active_context == Some(stage.name)
        }),
{
}

/// A context that was destroyed is gone: it can be neither switched to nor destroyed again.
pub proof fn lemma_destroyed_context(state: ManagerView, name: Seq<char>)
    requires
        state.contexts.dom().contains(name),
        !contexts::is_default(name),
    ensures
        ({
            let after = state.destroy_context(name).0;
            &&& !after.contexts.dom().contains(name)
            &&& after.switch_context(name) == (after, Err::<Seq<char>, ErrorView>(
                contexts::unknown_context(name),
            ))
            &&& after.destroy_context(name) == (after, StepView::<
                contexts::DestroyingContext<Seq<char>, Seq<PageId>>,
                Seq<char>,
            >::Done(Err(contexts::unknown_context(name))))
        }),
{
}

/// Removing the routes of a pattern leaves none of them and all others; to add one of them
/// before makes no difference, and neither does removing them twice.
pub proof fn lemma_remove_route(state: ManagerView, route: RouteView, pattern: Seq<char>)
    ensures
        ({
            let after = state.without_route(pattern);
            &&& forall|k: int|
                0 <= k < after.routes.len() ==> (#[trigger] after.routes[k]).pattern != pattern
            &&& forall|k: int|
                0 <= k < state.routes.len() && (#[trigger] state.routes[k]).pattern != pattern
                    ==> after.routes.contains(state.routes[k])
            &&& after.without_route(pattern) == after
            &&& state.with_route(RouteView { pattern, ..route }).without_route(pattern) == after
            &&& route.pattern != pattern ==> state.with_route(route).without_route(pattern)
                == after.with_route(route)
        }),
{
    let keep = |r: RouteView| r.pattern != pattern;
    let after = state.without_route(pattern);
    broadcast use vstd::seq_lib::group_filter_ensures;

    assert(after.routes == state.routes.filter(keep));
    assert forall|k: int| 0 <= k < after.routes.len() implies (#[trigger] after.routes[k]).pattern
        != pattern by {
        assert(keep(after.routes[k]));
    }
    assert forall|k: int|
        0 <= k < state.routes.len() && (#[trigger] state.routes[k]).pattern
            != pattern implies after.routes.contains(state.routes[k]) by {
        assert(keep(state.routes[k]));
    }
    lemma_filter_all(after.routes, pattern);
    state.routes.lemma_filter_push(RouteView { pattern, ..route }, keep);
    state.routes.lemma_filter_push(route, keep);
}

proof fn lemma_filter_all(routes: Seq<RouteView>, pattern: Seq<char>)
    requires
        forall|k: int| 0 <= k < routes.len() ==> (#[trigger] routes[k]).pattern != pattern,
    ensures
        routes::without(routes, pattern) == routes,
    decreases routes.len(),
{
    reveal(Seq::filter);
    if routes.len() > 0 {
        assert forall|k: int|
            0 <= k < routes.drop_last().len() implies (#[trigger] routes.drop_last()[k]).pattern
            != pattern by {
            assert(routes.drop_last()[k] == routes[k]);
        }
        lemma_filter_all(routes.drop_last(), pattern);
        assert(routes.drop_last().push(routes.last()) =~= routes);
    } else {
        assert(routes::without(routes, pattern) =~= routes);
    }
}

} // verus!
