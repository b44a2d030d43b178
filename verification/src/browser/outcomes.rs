//! What operations come to, whatever the browser answers: laws on whole runs, from the first
//! step through any sequence of events.

use vstd::prelude::*;

use crate::browser::contexts::DestroyingContext;
use crate::browser::input::TypingXpath;
use crate::browser::page;
use crate::browser::page::{Bursting, ClearingCookies, ReadingCookies};
use crate::browser::session;
use crate::browser::session::{Attaching, DebugLaunching, DebugOrder, EnsuringAlive, Launching};
use crate::browser::tabs;
use crate::browser::tabs::{ListingTabs, SwitchingTab};
use crate::browser::trace;
use crate::browser::trace::{SavingTrace, StoppingTrace};
use crate::browser::wait;
use crate::browser::wait::{WaitingFor, WaitingForXpath};
use crate::browser::ManagerView;
use crate::error::ErrorView;
use crate::json;
use crate::json::JsonView;
use crate::step;
use crate::step::{ActionView, Cookie, CookieView, Event, PageId, StepView};
use crate::text;

verus! {

/// An event shows what a wait for a selector looks for: an element, and, where it is to be
/// visible, the very next event says that it is.
pub open spec fn shows(events: Seq<Event>, check_visible: bool, i: int) -> bool {
    &&& 0 <= i < events.len()
    &&& events[i].element() is Some
    &&& check_visible ==> i + 1 < events.len() && says_visible(events[i + 1])
}

/// The same, in a look that was begun while there was time: the event before says so.
pub open spec fn shows_in_time(
    events: Seq<Event>,
    check_visible: bool,
    timeout_ms: u64,
    i: int,
) -> bool {
    shows(events, check_visible, i) && i > 0 && events[i - 1].millis() < timeout_ms
}

/// An event says that an element is visible.
pub open spec fn says_visible(event: Event) -> bool {
    event.value() == Ok::<JsonView, ErrorView>(JsonView::Bool(true))
}

/// An event says that this much time has gone by.
pub open spec fn elapsed(events: Seq<Event>, timeout_ms: u64, i: int) -> bool {
    0 <= i < events.len() && events[i].millis() >= timeout_ms
}

/// What comes after an event in a wait for a selector.
pub open spec fn wait_next() -> spec_fn(ManagerView, WaitingFor<Seq<char>>, Event) -> (
    ManagerView,
    StepView<WaitingFor<Seq<char>>, ()>,
) {
    |state: ManagerView, stage: WaitingFor<Seq<char>>, event: Event| (state, stage.next(event))
}

proof fn lemma_wait_run(
    state: ManagerView,
    action: ActionView,
    wait: WaitingFor<Seq<char>>,
    events: Seq<Event>,
)
    ensures
        ({
            let (after, end) = step::run(wait_next(), state, StepView::Ask(action, wait), events);
            &&& after == state
            &&& end matches StepView::Done(Ok(_)) ==> {
                ||| exists|i: int| shows_in_time(events, wait.check_visible, wait.timeout_ms, i)
                ||| wait.stage is Finding && shows(events, wait.check_visible, 0)
                ||| wait.stage is Checking && events.len() > 0 && says_visible(events[0])
            }
            &&& end matches StepView::Done(Err(e)) ==> {
                &&& e == ErrorView::Timeout(
                    "Waiting for "@ + wait::awaited(wait.selector, wait.check_visible),
                )
                &&& exists|i: int| elapsed(events, wait.timeout_ms, i)
            }
        }),
    decreases events.len(),
{
    reveal_with_fuel(step::run, 2);
    if events.len() > 0 {
        let rest = events.drop_first();
        match wait.next(events[0]) {
            StepView::Ask(next_action, next) => {
                lemma_wait_run(state, next_action, next, rest);
                let end = step::run(wait_next(), state, StepView::Ask(action, wait), events).1;
                assert(end == step::run(
                    wait_next(),
                    state,
                    StepView::Ask(next_action, next),
                    rest,
                ).1);
                assert(next.check_visible == wait.check_visible && next.timeout_ms
                    == wait.timeout_ms && next.selector == wait.selector);
                if end matches StepView::Done(Ok(_)) {
                    if exists|i: int| shows_in_time(rest, wait.check_visible, wait.timeout_ms, i) {
                        let i = choose|i: int|
                            shows_in_time(rest, wait.check_visible, wait.timeout_ms, i);
                        assert(rest[i] == events[i + 1] && rest[i - 1] == events[i]);
                        assert(shows_in_time(events, wait.check_visible, wait.timeout_ms, i + 1));
                    } else if next.stage is Finding {
                        assert(wait.stage is Timing);
                        assert(shows_in_time(events, wait.check_visible, wait.timeout_ms, 1));
                    } else {
                        assert(next.stage is Checking && says_visible(rest[0]));
                        assert(wait.stage is Finding);
                        assert(shows(events, wait.check_visible, 0));
                    }
                }
                if end matches StepView::Done(Err(_)) {
                    let i = choose|i: int| elapsed(rest, wait.timeout_ms, i);
                    assert(elapsed(events, wait.timeout_ms, i + 1));
                }
            },
            StepView::Done(Ok(_)) => {
                if wait.stage is Finding {
                    assert(shows(events, wait.check_visible, 0));
                }
            },
            StepView::Done(Err(_)) => {
                assert(elapsed(events, wait.timeout_ms, 0));
            },
        }
    }
}

/// A wait for a selector succeeds only if the element was shown to be there, and visible where
/// that was asked for, in a look that was begun in time; it gives up only once the time is over.
/// It never changes the state.
pub proof fn lemma_wait_for(
    state: ManagerView,
    selector: Seq<char>,
    timeout_ms: u64,
    check_visible: bool,
    events: Seq<Event>,
)
    requires
        state.page() is Some,
    ensures
        ({
            let first = state.wait_for(selector, timeout_ms, check_visible);
            let (after, end) = step::run(wait_next(), state, first, events);
            &&& after == state
            &&& end matches StepView::Done(Ok(_)) ==> exists|i: int|
                shows_in_time(events, check_visible, timeout_ms, i)
            &&& end matches StepView::Done(Err(e)) ==> {
                &&& e == ErrorView::Timeout(
                    "Waiting for "@ + wait::awaited(selector, check_visible),
                )
                &&& exists|i: int| elapsed(events, timeout_ms, i)
            }
        }),
{
    let first = state.wait_for(selector, timeout_ms, check_visible);
    lemma_wait_run(state, first->Ask_0, first->Ask_1, events);
}

/// What comes after an event in a wait for an XPath expression.
pub open spec fn wait_xpath_next() -> spec_fn(ManagerView, WaitingForXpath<Seq<char>>, Event) -> (
    ManagerView,
    StepView<WaitingForXpath<Seq<char>>, ()>,
) {
    |state: ManagerView, stage: WaitingForXpath<Seq<char>>, event: Event|
        (state, state.wait_xpath_next(stage, event))
}

/// One of the events ends a wait for an XPath expression.
pub open spec fn seen_at(events: Seq<Event>, check_visible: bool, i: int) -> bool {
    0 <= i < events.len() && wait::seen(events[i], check_visible)
}

/// The same, in a look that was begun while there was time: the event before says so.
pub open spec fn seen_in_time(
    events: Seq<Event>,
    check_visible: bool,
    timeout_ms: u64,
    i: int,
) -> bool {
    seen_at(events, check_visible, i) && i > 0 && events[i - 1].millis() < timeout_ms
}

proof fn lemma_wait_xpath_run(
    state: ManagerView,
    action: ActionView,
    wait: WaitingForXpath<Seq<char>>,
    events: Seq<Event>,
)
    ensures
        ({
            let (after, end) = step::run(
                wait_xpath_next(),
                state,
                StepView::Ask(action, wait),
                events,
            );
            &&& after == state
            &&& end matches StepView::Done(Ok(_)) ==> {
                ||| state.page() is Some && exists|i: int|
                    seen_in_time(events, wait.check_visible, wait.timeout_ms, i)
                ||| wait.stage is Looking && seen_at(events, wait.check_visible, 0)
            }
            &&& end matches StepView::Done(Err(e)) ==> {
                &&& e == ErrorView::Timeout(
                    "Waiting for xpath: "@ + wait::awaited(wait.xpath, wait.check_visible),
                )
                &&& exists|i: int| elapsed(events, wait.timeout_ms, i)
            }
        }),
    decreases events.len(),
{
    reveal_with_fuel(step::run, 2);
    if events.len() > 0 {
        let rest = events.drop_first();
        match state.wait_xpath_next(wait, events[0]) {
            StepView::Ask(next_action, next) => {
                lemma_wait_xpath_run(state, next_action, next, rest);
                let end = step::run(
                    wait_xpath_next(),
                    state,
                    StepView::Ask(action, wait),
                    events,
                ).1;
                assert(end == step::run(
                    wait_xpath_next(),
                    state,
                    StepView::Ask(next_action, next),
                    rest,
                ).1);
                if end matches StepView::Done(Ok(_)) {
                    if exists|i: int| seen_in_time(rest, wait.check_visible, wait.timeout_ms, i) {
                        let i = choose|i: int|
                            seen_in_time(rest, wait.check_visible, wait.timeout_ms, i);
                        assert(rest[i] == events[i + 1] && rest[i - 1] == events[i]);
                        assert(seen_in_time(events, wait.check_visible, wait.timeout_ms, i + 1));
                    } else {
                        assert(next.stage is Looking && wait.stage is Timing);
                        assert(seen_in_time(events, wait.check_visible, wait.timeout_ms, 1));
                    }
                }
                if end matches StepView::Done(Err(_)) {
                    let i = choose|i: int| elapsed(rest, wait.timeout_ms, i);
                    assert(elapsed(events, wait.timeout_ms, i + 1));
                }
            },
            StepView::Done(Ok(_)) => {
                assert(seen_at(events, wait.check_visible, 0));
            },
            StepView::Done(Err(_)) => {
                assert(elapsed(events, wait.timeout_ms, 0));
            },
        }
    }
}

/// A wait for an XPath expression succeeds only on a page, and only if the element was seen, and
/// seen to be visible where that was asked for, in a look that was begun in time; it gives up
/// only once the time is over. It never changes the state.
pub proof fn lemma_wait_for_xpath(
    state: ManagerView,
    xpath: Seq<char>,
    timeout_ms: u64,
    check_visible: bool,
    events: Seq<Event>,
)
    ensures
        ({
            let first = state.wait_for_xpath(xpath, timeout_ms, check_visible);
            let (after, end) = step::run(wait_xpath_next(), state, first, events);
            &&& after == state
            &&& end matches StepView::Done(Ok(_)) ==> {
                &&& state.page() is Some
                &&& exists|i: int| seen_in_time(events, check_visible, timeout_ms, i)
            }
            &&& end matches StepView::Done(Err(e)) ==> {
                &&& e == ErrorView::Timeout(
                    "Waiting for xpath: "@ + wait::awaited(xpath, check_visible),
                )
                &&& exists|i: int| elapsed(events, timeout_ms, i)
            }
        }),
{
    let first = state.wait_for_xpath(xpath, timeout_ms, check_visible);
    lemma_wait_xpath_run(state, first->Ask_0, first->Ask_1, events);
}

/// What comes after an event while the tabs are listed.
pub open spec fn list_next() -> spec_fn(
    ManagerView,
    ListingTabs<Seq<char>, Seq<JsonView>>,
    Event,
) -> (ManagerView, StepView<ListingTabs<Seq<char>, Seq<JsonView>>, Seq<JsonView>>) {
    |state: ManagerView, stage: ListingTabs<Seq<char>, Seq<JsonView>>, event: Event|
        (state, state.list_next(stage, event))
}

/// The list of tabs from an index on that the events tell: an address and a title for each.
pub open spec fn told_tabs(state: ManagerView, index: int, events: Seq<Event>) -> Seq<JsonView> {
    Seq::new(
        (state.pages.len() - index) as nat,
        |k: int|
            tabs::tab_json(
                index + k,
                events[2 * k].text(),
                events[2 * k + 1].text(),
                index + k == state.active_page_index,
            ),
    )
}

proof fn lemma_list_run(
    state: ManagerView,
    index: int,
    listed: Seq<JsonView>,
    events: Seq<Event>,
)
    requires
        0 <= index <= state.pages.len() <= usize::MAX,
        events.len() == 2 * (state.pages.len() - index),
    ensures
        step::run(list_next(), state, state.list_from(index, listed), events) == (
            state,
            StepView::<ListingTabs<Seq<char>, Seq<JsonView>>, Seq<JsonView>>::Done(
                Ok(listed + told_tabs(state, index, events)),
            ),
        ),
    decreases events.len(),
{
    reveal_with_fuel(step::run, 3);
    if index < state.pages.len() {
        let url = events[0].text();
        let title = events[1].text();
        let tab = tabs::tab_json(index, url, title, index == state.active_page_index);
        let rest = events.drop_first().drop_first();
        lemma_list_run(state, index + 1, listed.push(tab), rest);
        assert(state.list_next(
            ListingTabs::Addressing { index: index as usize, tabs: listed },
            events[0],
        ) == StepView::<ListingTabs<Seq<char>, Seq<JsonView>>, Seq<JsonView>>::Ask(
            ActionView::PageTitle { page: state.pages[index] },
            ListingTabs::Titling { index: index as usize, url, tabs: listed },
        ));
        assert(listed.push(tab) + told_tabs(state, index + 1, rest) =~= listed + told_tabs(
            state,
            index,
            events,
        )) by {
            assert forall|k: int|
                0 <= k < state.pages.len() - index - 1 implies told_tabs(state, index + 1, rest)[k]
                == #[trigger] told_tabs(state, index, events)[k + 1] by {
                assert(rest[2 * k] == events[2 * (k + 1)]);
                assert(rest[2 * k + 1] == events[2 * (k + 1) + 1]);
            }
        }
    } else {
        assert(listed + told_tabs(state, index, events) =~= listed);
    }
}

/// The list of tabs has one entry for each page, in order, with the address and the title that
/// the browser told, and marks the active one alone. To list the tabs changes nothing.
pub proof fn lemma_list_tabs(state: ManagerView, events: Seq<Event>)
    requires
        state.pages.len() <= usize::MAX,
        events.len() == 2 * state.pages.len(),
    ensures
        step::run(list_next(), state, state.list_tabs(), events) == (
            state,
            StepView::<ListingTabs<Seq<char>, Seq<JsonView>>, Seq<JsonView>>::Done(
                Ok(told_tabs(state, 0, events)),
            ),
        ),
{
    lemma_list_run(state, 0, seq![], events);
    assert(Seq::<JsonView>::empty() + told_tabs(state, 0, events) =~= told_tabs(state, 0, events));
}

/// What comes after an event while a tab is looked for.
pub open spec fn seek_next() -> spec_fn(ManagerView, SwitchingTab<Seq<char>>, Event) -> (
    ManagerView,
    StepView<SwitchingTab<Seq<char>>, usize>,
) {
    |state: ManagerView, stage: SwitchingTab<Seq<char>>, event: Event|
        state.seek_next(stage, text::lowercase(event.text()))
}

/// The address that an event tells contains a text, whatever the case of the letters.
pub open spec fn fits(event: Event, lower: Seq<char>) -> bool {
    text::occurs(text::lowercase(event.text()), lower)
}

proof fn lemma_seek_run(
    state: ManagerView,
    wanted: Seq<char>,
    lower: Seq<char>,
    index: int,
    events: Seq<Event>,
)
    requires
        0 <= index <= state.pages.len() <= usize::MAX,
        events.len() == state.pages.len() - index,
    ensures
        ({
            let (after, end) = step::run(
                seek_next(),
                state,
                state.seek_tab(wanted, lower, index),
                events,
            );
            match end {
                StepView::Done(Ok(found)) => {
                    &&& index <= found < state.pages.len()
                    &&& fits(events[found - index], lower)
                    &&& forall|k: int| 0 <= k < found - index ==> !fits(#[trigger] events[k], lower)
                    &&& after == state.with_active(found as int)
                },
                StepView::Done(Err(e)) => {
                    &&& forall|k: int| 0 <= k < events.len() ==> !fits(#[trigger] events[k], lower)
                    &&& e == ErrorView::Cdp("No tab with URL containing '"@ + wanted + "'"@)
                    &&& after == state
                },
                StepView::Ask(..) => false,
            }
        }),
    decreases events.len(),
{
    reveal_with_fuel(step::run, 2);
    if index < state.pages.len() && !fits(events[0], lower) {
        let rest = events.drop_first();
        lemma_seek_run(state, wanted, lower, index + 1, rest);
        let (after, end) = step::run(
            seek_next(),
            state,
            state.seek_tab(wanted, lower, index),
            events,
        );
        assert((after, end) == step::run(
            seek_next(),
            state,
            state.seek_tab(wanted, lower, index + 1),
            rest,
        ));
        assert forall|k: int|
            0 < k < events.len() && !fits(rest[k - 1], lower) implies !fits(
            #[trigger] events[k],
            lower,
        ) by {
            assert(rest[k - 1] == events[k]);
        }
    }
}

/// The search for a tab makes the first tab active whose address contains the text, whatever the
/// case of the letters; where no address does, it fails and changes nothing.
pub proof fn lemma_switch_tab_by_url(state: ManagerView, wanted: Seq<char>, events: Seq<Event>)
    requires
        state.pages.len() <= usize::MAX,
        events.len() == state.pages.len(),
    ensures
        ({
            let lower = text::lowercase(wanted);
            let (after, end) = step::run(
                seek_next(),
                state,
                state.switch_tab_by_url(wanted),
                events,
            );
            match end {
                StepView::Done(Ok(found)) => {
                    &&& found < state.pages.len()
                    &&& fits(events[found as int], lower)
                    &&& forall|k: int| 0 <= k < found ==> !fits(#[trigger] events[k], lower)
                    &&& after == state.with_active(found as int)
                },
                StepView::Done(Err(e)) => {
                    &&& forall|k: int| 0 <= k < events.len() ==> !fits(#[trigger] events[k], lower)
                    &&& e == ErrorView::Cdp("No tab with URL containing '"@ + wanted + "'"@)
                    &&& after == state
                },
                StepView::Ask(..) => false,
            }
        }),
{
    lemma_seek_run(state, wanted, text::lowercase(wanted), 0, events);
}

/// What comes after an event in a burst.
pub open spec fn burst_next() -> spec_fn(ManagerView, Bursting<Seq<Seq<char>>>, Event) -> (
    ManagerView,
    StepView<Bursting<Seq<Seq<char>>>, Seq<Seq<char>>>,
) {
    |state: ManagerView, stage: Bursting<Seq<Seq<char>>>, event: Event|
        (state, state.burst_after(stage, event))
}

/// The first picture of a burst that failed.
pub open spec fn failed_first(events: Seq<Event>, count: int, e: ErrorView, k: int) -> bool {
    &&& 0 <= k < count
    &&& 2 * k < events.len()
    &&& page::picture(events[2 * k]) == Err::<Seq<char>, ErrorView>(e)
    &&& forall|j: int| 0 <= j < k ==> (#[trigger] page::picture(events[2 * j])) is Ok
}

proof fn lemma_burst_run(
    state: ManagerView,
    count: int,
    interval_ms: u64,
    quality: u8,
    shots: Seq<Seq<char>>,
    events: Seq<Event>,
)
    requires
        0 <= count <= usize::MAX,
    ensures
        ({
            let (after, end) = step::run(
                burst_next(),
                state,
                state.burst_next(count, interval_ms, quality, shots),
                events,
            );
            &&& after == state
            &&& end matches StepView::Done(Ok(all)) ==> all.len() == shots.len() + count
                && events.len() >= 2 * count && forall|k: int|
                0 <= k < count ==> page::picture(events[2 * k]) == Ok::<Seq<char>, ErrorView>(
                    #[trigger] all[shots.len() + k],
                )
            &&& end matches StepView::Done(Err(e)) ==> state.page() is Some ==> exists|k: int|
                failed_first(events, count, e, k)
        }),
    decreases count,
{
    reveal_with_fuel(step::run, 3);
    let first = state.burst_next(count, interval_ms, quality, shots);
    if count > 0 && state.page() is Some && events.len() > 0 {
        if let Err(e) = page::picture(events[0]) {
            assert(failed_first(events, count, e, 0));
        }
        if let Ok(shot) = page::picture(events[0]) {
            if events.len() > 1 {
                let rest = events.drop_first().drop_first();
                lemma_burst_run(state, count - 1, interval_ms, quality, shots.push(shot), rest);
                let end = step::run(burst_next(), state, first, events).1;
                assert(end == step::run(
                    burst_next(),
                    state,
                    state.burst_next(count - 1, interval_ms, quality, shots.push(shot)),
                    rest,
                ).1);
                if let StepView::Done(Err(e)) = end {
                    let fewer: int = count - 1;
                    let k = choose|k: int| failed_first(rest, fewer, e, k);
                    assert(rest[2 * k] == events[2 * (k + 1)]);
                    assert forall|j: int| 0 <= j < k + 1 implies (#[trigger] page::picture(
                        events[2 * j],
                    )) is Ok by {
                        if j > 0 {
                            assert(page::picture(rest[2 * (j - 1)]) is Ok);
                            assert(rest[2 * (j - 1)] == events[2 * j]);
                        }
                    }
                    assert(failed_first(events, count, e, k + 1));
                }
                if let StepView::Done(Ok(all)) = end {
                    assert forall|k: int| 0 <= k < count implies page::picture(events[2 * k])
                        == Ok::<Seq<char>, ErrorView>(#[trigger] all[shots.len() + k]) by {
                        if k > 0 {
                            assert(rest[2 * (k - 1)] == events[2 * k]);
                            assert(all[shots.push(shot).len() + (k - 1)] == all[shots.len() + k]);
                        } else {
                            lemma_burst_keeps(
                                state,
                                count - 1,
                                interval_ms,
                                quality,
                                shots.push(shot),
                                rest,
                            );
                            assert(all.take(shots.push(shot).len() as int)[shots.len() as int]
                                == shot);
                        }
                    }
                }
            }
        }
    }
}

proof fn lemma_burst_keeps(
    state: ManagerView,
    count: int,
    interval_ms: u64,
    quality: u8,
    shots: Seq<Seq<char>>,
    events: Seq<Event>,
)
    requires
        0 <= count <= usize::MAX,
    ensures
        step::run(
            burst_next(),
            state,
            state.burst_next(count, interval_ms, quality, shots),
            events,
        ).1 matches StepView::Done(Ok(all)) ==> all.len() >= shots.len() && all.take(
            shots.len() as int,
        ) == shots,
    decreases count,
{
    reveal_with_fuel(step::run, 3);
    let first = state.burst_next(count, interval_ms, quality, shots);
    if count == 0 {
        assert(shots.take(shots.len() as int) =~= shots);
    } else if state.page() is Some && events.len() > 1 {
        if let Ok(shot) = page::picture(events[0]) {
            let rest = events.drop_first().drop_first();
            lemma_burst_keeps(state, count - 1, interval_ms, quality, shots.push(shot), rest);
            let end = step::run(burst_next(), state, first, events).1;
            assert(end == step::run(
                burst_next(),
                state,
                state.burst_next(count - 1, interval_ms, quality, shots.push(shot)),
                rest,
            ).1);
            if let StepView::Done(Ok(all)) = end {
                assert(all.take(shots.len() as int) =~= all.take((shots.len() + 1) as int).take(
                    shots.len() as int,
                ));
                assert(shots.push(shot).take(shots.len() as int) =~= shots);
            }
        }
    }
}

/// A burst that succeeds gives exactly as many pictures as were asked for, in the order in which
/// they were taken; one of no pictures succeeds at once. On a page a burst fails with the first
/// picture that fails, and without a page it fails at once. A burst changes nothing.
pub proof fn lemma_screenshot_burst(
    state: ManagerView,
    count: usize,
    interval_ms: u64,
    quality: u8,
    events: Seq<Event>,
)
    ensures
        ({
            let first = state.screenshot_burst(count, interval_ms, quality);
            let (after, end) = step::run(burst_next(), state, first, events);
            &&& after == state
            &&& end matches StepView::Done(Ok(all)) ==> all.len() == count && events.len() >= 2
                * count && forall|k: int|
                0 <= k < count ==> page::picture(events[2 * k]) == Ok::<Seq<char>, ErrorView>(
                    #[trigger] all[k],
                )
            &&& end matches StepView::Done(Err(e)) ==> state.page() is Some ==> exists|k: int|
                failed_first(events, count as int, e, k)
            &&& count == 0 ==> end == StepView::<Bursting<Seq<Seq<char>>>, Seq<Seq<char>>>::Done(
                Ok(seq![]),
            )
            &&& count > 0 && state.page() is None ==> end == StepView::<
                Bursting<Seq<Seq<char>>>,
                Seq<Seq<char>>,
            >::Done(Err(ErrorView::NoPage))
        }),
{
    lemma_burst_run(state, count as int, interval_ms, quality, seq![], events);
    let first = state.screenshot_burst(count, interval_ms, quality);
    if let StepView::Done(Ok(all)) = step::run(burst_next(), state, first, events).1 {
        assert forall|k: int| 0 <= k < count implies page::picture(events[2 * k]) == Ok::<
            Seq<char>,
            ErrorView,
        >(#[trigger] all[k]) by {
            assert(all[Seq::<Seq<char>>::empty().len() + k] == all[k]);
        }
    }
}

/// What comes after an event in a launch, and the state then.
pub open spec fn launch_next() -> spec_fn(ManagerView, Launching, Event) -> (
    ManagerView,
    StepView<Launching, ()>,
) {
    |state: ManagerView, stage: Launching, event: Event|
        (state.launch_next(stage, event), stage.next(event))
}

/// A launch that succeeds gives the manager a browser with the one page that was opened, which is
/// active, and the mode that was asked for, and leaves the rest as it was; one that fails or is
/// not done yet changes nothing.
pub proof fn lemma_launch(
    state: ManagerView,
    headless: bool,
    profile: Option<Seq<char>>,
    events: Seq<Event>,
)
    ensures
        ({
            let (after, end) = step::run(
                launch_next(),
                state,
                state.launch(headless, profile),
                events,
            );
            if end matches StepView::Done(Ok(_)) {
                &&& events.len() >= 2
                &&& events[1].page() matches Ok(page)
                &&& after == state.connected(seq![page], headless)
                &&& after.page() == Some(page)
            } else {
                after == state
            }
        }),
{
    reveal_with_fuel(step::run, 4);
}

/// What comes after an event while a browser is attached, and the state then.
pub open spec fn attach_next() -> spec_fn(
    ManagerView,
    Attaching<Seq<char>, Seq<PageId>>,
    Event,
) -> (ManagerView, StepView<Attaching<Seq<char>, Seq<PageId>>, Seq<char>>) {
    |state: ManagerView, stage: Attaching<Seq<char>, Seq<PageId>>, event: Event|
        (state.attach_next(stage, event), stage.next(event))
}

/// An attachment that succeeds gives the manager a browser with the pages that it listed, or with
/// the one that was opened where it listed none. The first is active, its address is returned and
/// is the current one, and the rest stays as it was; an attachment that fails or is not done yet
/// changes nothing.
pub proof fn lemma_attach(state: ManagerView, port: u16, events: Seq<Event>)
    ensures
        ({
            let (after, end) = step::run(attach_next(), state, Attaching::start(port), events);
            if let StepView::Done(Ok(url)) = end {
                &&& events.len() >= 2
                &&& events[1].pages() matches Ok(listed)
                &&& listed.len() > 0 ==> after == (ManagerView {
                    current_url: url,
                    ..state.connected(listed, false)
                }) && url == events[2].text()
                &&& listed.len() == 0 ==> {
                    &&& events.len() >= 4
                    &&& events[2].page() matches Ok(opened)
                    &&& after == (ManagerView {
                        current_url: url,
                        ..state.connected(seq![opened], false)
                    })
                    &&& url == events[3].text()
                }
                &&& after.page() == Some(after.pages[0])
            } else {
                after == state
            }
        }),
{
    reveal_with_fuel(step::run, 6);
}

/// What comes after an event while a browser is kept alive, and the state then.
pub open spec fn ensure_next() -> spec_fn(ManagerView, EnsuringAlive, Event) -> (
    ManagerView,
    StepView<EnsuringAlive, ()>,
) {
    |state: ManagerView, stage: EnsuringAlive, event: Event|
        (state.ensure_state(stage, event), state.ensure_next(stage, event))
}

/// A browser that answers is left alone. Otherwise another one is launched, as the last one was;
/// in the end there is an active page, unless that failed, and then there is no browser.
pub proof fn lemma_ensure_alive(state: ManagerView, events: Seq<Event>)
    ensures
        ({
            let (start, first) = state.ensure_alive();
            let (after, end) = step::run(ensure_next(), start, first, events);
            &&& state.page() is Some && events.len() > 0 && events[0].failure() is None
                ==> after == state && end == StepView::<EnsuringAlive, ()>::Done(Ok(()))
            &&& end matches StepView::Done(Ok(_)) ==> after.page() is Some && after.headless
                == state.headless
            &&& end matches StepView::Done(Err(_)) ==> !after.launched && after
                == state.recovered()
        }),
{
    reveal_with_fuel(step::run, 5);
}

/// What comes after an event while a browser is started for debugging.
pub open spec fn debug_next() -> spec_fn(
    ManagerView,
    DebugLaunching<Seq<char>, Seq<Seq<char>>>,
    Event,
) -> (ManagerView, StepView<DebugLaunching<Seq<char>, Seq<Seq<char>>>, Seq<char>>) {
    |state: ManagerView, stage: DebugLaunching<Seq<char>, Seq<Seq<char>>>, event: Event|
        (state, stage.next(event))
}

/// One of the events names the browser behind the debug port.
pub open spec fn named_at(events: Seq<Event>, i: int) -> bool {
    0 <= i < events.len() && session::names_browser(events[i])
}

/// One of the events tells of a started process.
pub open spec fn started_at(events: Seq<Event>, i: int) -> bool {
    0 <= i < events.len() && events[i] is Process
}

/// Whether a stage comes before the process was started.
pub open spec fn unstarted(stage: DebugLaunching<Seq<char>, Seq<Seq<char>>>) -> Option<
    DebugOrder<Seq<char>>,
> {
    match stage {
        DebugLaunching::Reading { order } => Some(order),
        DebugLaunching::Looking { order, .. } => Some(order),
        DebugLaunching::Starting { order } => Some(order),
        _ => None,
    }
}

proof fn lemma_debug_run(
    state: ManagerView,
    action: ActionView,
    stage: DebugLaunching<Seq<char>, Seq<Seq<char>>>,
    events: Seq<Event>,
)
    ensures
        ({
            let (after, end) = step::run(debug_next(), state, StepView::Ask(action, stage), events);
            &&& after == state
            &&& end matches StepView::Done(Ok(_)) ==> {
                &&& unstarted(stage) is Some ==> exists|i: int| started_at(events, i)
                &&& stage is Ready || (unstarted(stage) matches Some(order)
                    && !order.wait_for_cdp) || exists|i: int| named_at(events, i)
            }
            &&& end matches StepView::Done(Err(ErrorView::Timeout(_))) ==> exists|i: int|
                elapsed(events, session::START_LIMIT_MS, i)
        }),
    decreases events.len(),
{
    reveal_with_fuel(step::run, 2);
    if events.len() > 0 {
        let rest = events.drop_first();
        let first = step::run(debug_next(), state, StepView::Ask(action, stage), events);
        match stage.next(events[0]) {
            StepView::Ask(next_action, next) => {
                lemma_debug_run(state, next_action, next, rest);
                let (after, end) = step::run(
                    debug_next(),
                    state,
                    StepView::Ask(next_action, next),
                    rest,
                );
                assert(first == (after, end));
                if end matches StepView::Done(Ok(_)) {
                    if unstarted(stage) is Some {
                        if unstarted(next) is Some {
                            let i = choose|i: int| started_at(rest, i);
                            assert(started_at(events, i + 1));
                        } else {
                            assert(started_at(events, 0));
                        }
                    }
                    if next is Ready {
                        assert(named_at(events, 0));
                    }
                    if exists|i: int| named_at(rest, i) {
                        let i = choose|i: int| named_at(rest, i);
                        assert(named_at(events, i + 1));
                    }
                }
                if end matches StepView::Done(Err(ErrorView::Timeout(_))) {
                    let i = choose|i: int| elapsed(rest, session::START_LIMIT_MS, i);
                    assert(elapsed(events, session::START_LIMIT_MS, i + 1));
                }
            },
            StepView::Done(Ok(_)) => {
                if unstarted(stage) is Some {
                    assert(started_at(events, 0));
                }
            },
            StepView::Done(Err(_)) => {
                if stage is Timing {
                    assert(stage.next(events[0]) matches StepView::Done(Err(ErrorView::Timeout(_)))
                        ==> elapsed(events, session::START_LIMIT_MS, 0));
                }
            },
        }
    }
}

/// A start for debugging succeeds only once a process was started and, where the debug port is
/// waited for, once the port named its browser; it gives up for lack of time only once the time
/// is over. It never changes the state of a manager.
pub proof fn lemma_debug_launch(
    state: ManagerView,
    order: DebugOrder<Seq<char>>,
    events: Seq<Event>,
)
    ensures
        ({
            let first = DebugLaunching::start(order);
            let (after, end) = step::run(debug_next(), state, first, events);
            &&& after == state
            &&& end matches StepView::Done(Ok(_)) ==> {
                &&& exists|i: int| started_at(events, i)
                &&& order.wait_for_cdp ==> exists|i: int| named_at(events, i)
            }
            &&& end matches StepView::Done(Err(ErrorView::Timeout(_))) ==> exists|i: int|
                elapsed(events, session::START_LIMIT_MS, i)
        }),
{
    lemma_debug_run(
        state,
        ActionView::ReadVariable { name: session::APPDATA_VARIABLE@ },
        DebugLaunching::Reading { order },
        events,
    );
}

/// What comes after an event while the pages of a destroyed context are closed.
pub open spec fn destroy_next() -> spec_fn(
    ManagerView,
    DestroyingContext<Seq<char>, Seq<PageId>>,
    Event,
) -> (ManagerView, StepView<DestroyingContext<Seq<char>, Seq<PageId>>, Seq<char>>) {
    |state: ManagerView, stage: DestroyingContext<Seq<char>, Seq<PageId>>, event: Event|
        (state, stage.next(event))
}

/// The pages of a destroyed context are closed one after the other, each once: after `n` of them
/// were, whatever came of it, the next one is the page at `n`, and after the last one the end is
/// reported.
pub proof fn lemma_destroy_closes_pages(
    state: ManagerView,
    pages: Seq<PageId>,
    report: Seq<char>,
    events: Seq<Event>,
)
    requires
        events.len() <= pages.len(),
    ensures
        step::run(
            destroy_next(),
            state,
            DestroyingContext::close(pages, report),
            events,
        ) == (state, DestroyingContext::close(pages.skip(events.len() as int), report)),
    decreases events.len(),
{
    if events.len() > 0 {
        let rest = events.drop_first();
        lemma_destroy_closes_pages(state, pages.skip(1), report, rest);
        assert(pages.skip(1).skip(rest.len() as int) =~= pages.skip(events.len() as int));
    } else {
        assert(pages.skip(0) =~= pages);
    }
}

/// What comes after an event while the cookies are deleted.
pub open spec fn clear_next() -> spec_fn(ManagerView, ClearingCookies, Event) -> (
    ManagerView,
    StepView<ClearingCookies, ()>,
) {
    |state: ManagerView, stage: ClearingCookies, event: Event|
        (state, state.clear_next(stage, event))
}

/// What is left of cookies when those with the names and domains of others are deleted.
pub open spec fn remaining(cookies: Seq<CookieView>, deleted: Seq<CookieView>) -> Seq<CookieView> {
    cookies.filter(
        |c: CookieView|
            !(exists|k: int|
                0 <= k < deleted.len() && (#[trigger] deleted[k]).name == c.name
                    && deleted[k].domain == c.domain),
    )
}

/// What comes after an event while the cookies are read.
pub open spec fn cookies_next() -> spec_fn(ManagerView, ReadingCookies, Event) -> (
    ManagerView,
    StepView<ReadingCookies, Seq<JsonView>>,
) {
    |state: ManagerView, stage: ReadingCookies, event: Event|
        (state, state.cookies_next(stage, event))
}

/// Deleting cookies by name and domain leaves none of them.
pub proof fn lemma_none_remaining(cookies: Seq<CookieView>)
    ensures
        remaining(cookies, cookies) == Seq::<CookieView>::empty(),
{
    broadcast use {vstd::seq_lib::group_filter_ensures, Seq::lemma_filter_contains_rev};

    let left = remaining(cookies, cookies);
    if left.len() > 0 {
        assert(left.contains(left[0]));
        assert(cookies.contains(left[0]));
        let k = choose|k: int| 0 <= k < cookies.len() && cookies[k] == left[0];
        assert(cookies[k].name == left[0].name);
    }
    assert(left =~= Seq::<CookieView>::empty());
}

/// What clearing asks to be deleted is what reading lists, whether the browser tells the cookies
/// or a script does: where reading through some events lists entries, clearing through the same
/// events asks to delete the cookies that they stand for, and where reading fails, clearing fails
/// with the same error. Its end is what the browser says of the deletion, and it changes nothing
/// of the manager.
pub proof fn lemma_clear_follows_list(
    state: ManagerView,
    page: PageId,
    events: Seq<Event>,
    last: Event,
)
    requires
        state.page() == Some(page),
    ensures
        ({
            let first = state.clear_cookies();
            let (after, end) = step::run(clear_next(), state, first, events);
            let (_, listing) = step::run(cookies_next(), state, state.get_cookies(), events);
            &&& after == state
            &&& listing matches StepView::Done(Err(e)) ==> end == StepView::<
                ClearingCookies,
                (),
            >::Done(Err(e))
            &&& listing matches StepView::Done(Ok(entries)) ==> {
                let asked = StepView::<ClearingCookies, ()>::Ask(
                    ActionView::DeleteCookies { page, cookies: page::listed_cookies(entries) },
                    ClearingCookies::Deleting,
                );
                let told = if events[0] is Cookies {
                    1int
                } else {
                    2int
                };
                &&& told <= events.len()
                &&& step::run(clear_next(), state, first, events.take(told)).1 == asked
                &&& step::run(clear_next(), state, first, events.take(told).push(last)) == (
                    state,
                    StepView::<ClearingCookies, ()>::Done(last.outcome()),
                )
            }
        }),
{
    reveal_with_fuel(step::run, 5);
    let first = state.clear_cookies();
    if events.len() > 0 {
        let one = events.take(1);
        assert(one[0] == events[0]);
        assert(one.drop_first() =~= Seq::<Event>::empty());
        assert(one.push(last)[0] == events[0]);
        assert(one.push(last).drop_first() =~= seq![last]);
        assert(seq![last].drop_first() =~= Seq::<Event>::empty());
        assert(events.drop_first().len() == events.len() - 1);
        if events.len() > 1 {
            let two = events.take(2);
            assert(two[0] == events[0]);
            assert(two.drop_first() =~= seq![events[1]]);
            assert(seq![events[1]].drop_first() =~= Seq::<Event>::empty());
            assert(two.push(last)[0] == events[0]);
            assert(two.push(last).drop_first() =~= seq![events[1], last]);
            assert(seq![events[1], last].drop_first() =~= seq![last]);
            assert(events.drop_first()[0] == events[1]);
        }
    }
}

/// After clearing, no cookie is listed: where the browser tells the cookies of a page and does
/// what it is asked to, what remains of them is nothing, and reading them again, be it from the
/// browser or by a script that finds none, gives an empty list.
pub proof fn lemma_clear_cookies(
    state: ManagerView,
    page: PageId,
    told: Vec<Cookie>,
    left: Vec<Cookie>,
    scripted: Event,
)
    requires
        state.page() == Some(page),
        left.deep_view() == remaining(told.deep_view(), told.deep_view()),
        scripted.value() == Ok::<JsonView, ErrorView>(JsonView::Array(seq![])),
    ensures
        ({
            let first = state.clear_cookies();
            let none = StepView::<ReadingCookies, Seq<JsonView>>::Done(Ok(seq![]));
            &&& step::run(clear_next(), state, first, seq![Event::Cookies(told)]).1
                == StepView::<ClearingCookies, ()>::Ask(
                ActionView::DeleteCookies { page, cookies: told.deep_view() },
                ClearingCookies::Deleting,
            )
            &&& step::run(
                cookies_next(),
                state,
                state.get_cookies(),
                seq![Event::Cookies(left)],
            ).1 == none
            &&& step::run(
                cookies_next(),
                state,
                state.get_cookies(),
                seq![Event::Done, scripted],
            ).1 == none
        }),
{
    reveal_with_fuel(step::run, 4);
    lemma_listed_cookies(told.deep_view());
    lemma_none_remaining(told.deep_view());
    assert(seq![Event::Cookies(told)].drop_first() =~= Seq::<Event>::empty());
    assert(seq![Event::Cookies(left)].drop_first() =~= Seq::<Event>::empty());
    assert(seq![Event::Done, scripted].drop_first() =~= seq![scripted]);
    assert(seq![scripted].drop_first() =~= Seq::<Event>::empty());
    assert(page::cookie_list(left.deep_view()) =~= Seq::<JsonView>::empty());
}

/// The same for a list that a script reads: what it lists is asked to be deleted, and of the
/// cookies that it lists none remains.
pub proof fn lemma_clear_scripted_cookies(
    state: ManagerView,
    page: PageId,
    refused: Event,
    scripted: Event,
    entries: Seq<JsonView>,
)
    requires
        state.page() == Some(page),
        !(refused is Cookies),
        scripted.value() == Ok::<JsonView, ErrorView>(JsonView::Array(entries)),
    ensures
        ({
            let first = state.clear_cookies();
            let listed = page::listed_cookies(entries);
            &&& step::run(clear_next(), state, first, seq![refused, scripted]).1 == StepView::<
                ClearingCookies,
                (),
            >::Ask(
                ActionView::DeleteCookies { page, cookies: listed },
                ClearingCookies::Deleting,
            )
            &&& remaining(listed, listed) == Seq::<CookieView>::empty()
        }),
{
    reveal_with_fuel(step::run, 4);
    lemma_none_remaining(page::listed_cookies(entries));
    assert(seq![refused, scripted].drop_first() =~= seq![scripted]);
    assert(seq![scripted].drop_first() =~= Seq::<Event>::empty());
}

/// A list of cookies stands for the cookies that it was made of.
pub proof fn lemma_listed_cookies(cookies: Seq<CookieView>)
    ensures
        page::listed_cookies(page::cookie_list(cookies)) == cookies,
{
    reveal_strlit("name");
    reveal_strlit("value");
    reveal_strlit("domain");
    reveal_with_fuel(json::find, 4);
    assert("name"@.len() != "value"@.len());
    assert("name"@.len() != "domain"@.len());
    assert("value"@.len() != "domain"@.len());
    assert forall|i: int| 0 <= i < cookies.len() implies page::listed_cookie(
        #[trigger] page::cookie_list(cookies)[i],
    ) == cookies[i] by {
        let fields = page::cookie_json(cookies[i])->Object_0;
        assert(fields.drop_first()[0] == fields[1]);
        assert(fields.drop_first().drop_first()[0] == fields[2]);
    }
    assert(page::listed_cookies(page::cookie_list(cookies)) =~= cookies);
}

/// What comes after an event while a trace is stopped, and the state then.
pub open spec fn stop_next() -> spec_fn(ManagerView, StoppingTrace<JsonView>, Event) -> (
    ManagerView,
    StepView<StoppingTrace<JsonView>, JsonView>,
) {
    |state: ManagerView, stage: StoppingTrace<JsonView>, event: Event|
        state.trace_stop_next(stage, event)
}

/// A trace that was stopped holds what was recorded here, in order, and after it what the page
/// recorded, as the first event told it; then nothing is recorded any more and nothing is left. A
/// stop that fails or is not done yet changes nothing.
pub proof fn lemma_trace_stop(state: ManagerView, events: Seq<Event>)
    ensures
        ({
            let (after, end) = step::run(stop_next(), state, state.trace_stop(), events);
            if let StepView::Done(Ok(whole)) = end {
                &&& events.len() > 0
                &&& events[0].value() matches Ok(found)
                &&& whole == trace::trace_json(state.trace_entries + trace::found_items(found))
                &&& after == (ManagerView { trace_active: false, trace_entries: seq![], ..state })
            } else {
                after == state
            }
        }),
{
    reveal_with_fuel(step::run, 4);
}

/// From start to stop: a trace that was started, to which entries were added and which was
/// stopped on a page holds the entry of its start, the added entries and those of the page, in
/// this order.
pub proof fn lemma_trace_contents(
    state: ManagerView,
    installed: Event,
    added: Seq<JsonView>,
    found: JsonView,
    answers: Seq<Event>,
)
    requires
        !state.trace_active,
        state.page() is Some,
        installed.outcome() is Ok,
        answers.len() == 2,
        answers[0].value() == Ok::<JsonView, ErrorView>(found),
    ensures
        ({
            let started = state.trace_start().0.trace_start_next(installed).0;
            let recorded = ManagerView {
                trace_entries: started.trace_entries + added,
                ..started
            };
            step::run(stop_next(), recorded, recorded.trace_stop(), answers).1 == StepView::<
                StoppingTrace<JsonView>,
                JsonView,
            >::Done(
                Ok(
                    trace::trace_json(
                        seq![trace::start_entry(state.current_url)] + added + trace::found_items(
                            found,
                        ),
                    ),
                ),
            )
        }),
{
    reveal_with_fuel(step::run, 4);
    let started = state.trace_start().0.trace_start_next(installed).0;
    assert(started.trace_entries =~= seq![trace::start_entry(state.current_url)]);
    let recorded = ManagerView { trace_entries: started.trace_entries + added, ..started };
    assert(recorded.page() == state.page());
    assert(recorded.trace_active);
}

/// What comes after an event while a trace is saved, and the state then.
pub open spec fn save_next() -> spec_fn(
    ManagerView,
    SavingTrace<Seq<char>, JsonView>,
    Event,
) -> (ManagerView, StepView<SavingTrace<Seq<char>, JsonView>, Seq<char>>) {
    |state: ManagerView, stage: SavingTrace<Seq<char>, JsonView>, event: Event|
        state.trace_save_next(stage, event)
}

/// A trace on a page is saved as what a stop would have returned, in indented JSON text: that
/// text is what is asked to be written under the path. Where it is written the report names the
/// path and the number of entries, and where it is not the error says why; the trace is over
/// either way.
pub proof fn lemma_trace_save(
    state: ManagerView,
    path: Seq<char>,
    found: JsonView,
    read: Event,
    cleaned: Event,
    written: Event,
)
    requires
        state.trace_active,
        state.page() is Some,
        read.value() == Ok::<JsonView, ErrorView>(found),
    ensures
        ({
            let first = state.trace_save(path);
            let whole = trace::trace_json(state.trace_entries + trace::found_items(found));
            let over = ManagerView { trace_active: false, trace_entries: seq![], ..state };
            let count = trace::stated_count(whole);
            &&& step::run(save_next(), state, first, seq![read, cleaned]) == (
                over,
                SavingTrace::write(json::pretty_text(whole), count, path),
            )
            &&& step::run(save_next(), state, first, seq![read, cleaned, written]) == (
                over,
                StepView::<SavingTrace<Seq<char>, JsonView>, Seq<char>>::Done(
                    match written.failure() {
                        Some(m) => Err(ErrorView::Cdp("Failed to write trace: "@ + m)),
                        None => Ok(trace::saved_report(path, count)),
                    },
                ),
            )
        }),
{
    reveal_with_fuel(step::run, 5);
    let two = seq![read, cleaned];
    let three = seq![read, cleaned, written];
    assert(two.drop_first() =~= seq![cleaned]);
    assert(seq![cleaned].drop_first() =~= Seq::<Event>::empty());
    assert(three.drop_first() =~= seq![cleaned, written]);
    assert(seq![cleaned, written].drop_first() =~= seq![written]);
    assert(seq![written].drop_first() =~= Seq::<Event>::empty());
}

/// A trace that cannot be stopped is not saved: nothing is written and nothing changes.
pub proof fn lemma_trace_not_saved(state: ManagerView, path: Seq<char>, e: ErrorView, read: Event)
    ensures
        state.trace_stop() == StepView::<StoppingTrace<JsonView>, JsonView>::Done(Err(e))
            ==> SavingTrace::wrap(state.trace_stop(), path) == StepView::<
            SavingTrace<Seq<char>, JsonView>,
            Seq<char>,
        >::Done(Err(e)),
        read.value() == Err::<JsonView, ErrorView>(e) ==> state.trace_save_next(
            SavingTrace::Stopping { inner: StoppingTrace::Reading, path },
            read,
        ) == (state, StepView::<SavingTrace<Seq<char>, JsonView>, Seq<char>>::Done(Err(e))),
{
}

/// The number that a trace states is the number of its entries.
pub proof fn lemma_trace_count(entries: Seq<JsonView>)
    requires
        entries.len() <= u64::MAX,
    ensures
        trace::stated_count(trace::trace_json(entries)) == entries.len(),
{
    reveal_strlit("entries");
    reveal_strlit("count");
    let whole = trace::trace_json(entries);
    let fields = whole->Object_0;
    reveal_with_fuel(json::find, 3);
    assert("entries"@.len() != "count"@.len());
    assert(fields[0].0 != "count"@);
    assert(fields.drop_first()[0] == fields[1]);
    assert(whole.get("count"@) == Some(JsonView::Number(text::decimal(entries.len()))));
    json::lemma_integer_reads_back(entries.len() as int);
}

/// A trace is read back from its text where each of its entries is, two levels further down.
pub proof fn lemma_trace_readable(entries: Seq<JsonView>)
    requires
        entries.len() <= u64::MAX,
        forall|i: int|
            0 <= i < entries.len() ==> json::readable_within(#[trigger] entries[i], 125),
    ensures
        json::readable(trace::trace_json(entries)),
{
    reveal_strlit("entries");
    reveal_strlit("count");
    assert("entries"@.len() != "count"@.len());
    json::lemma_integer_reads_back(entries.len() as int);
    let fields = trace::trace_json(entries)->Object_0;
    assert(json::readable_within(fields[0].1, 126));
    assert(json::readable_within(fields[1].1, 126));
}

/// What comes after an event while text is typed into an element found under an XPath
/// expression.
pub open spec fn type_xpath_next() -> spec_fn(
    ManagerView,
    TypingXpath<Seq<char>, Seq<char>>,
    Event,
) -> (ManagerView, StepView<TypingXpath<Seq<char>, Seq<char>>, Seq<char>>) {
    |state: ManagerView, stage: TypingXpath<Seq<char>, Seq<char>>, event: Event|
        (state, state.type_xpath_next(stage, event))
}

/// Keys are sent for the characters in order, each once: after `n` keys went well the next one
/// is for the character at `n`, and after the last one the end is reported.
pub proof fn lemma_keys_in_order(
    state: ManagerView,
    page: PageId,
    chars: Seq<char>,
    sent: usize,
    report: Seq<char>,
    events: Seq<Event>,
)
    requires
        sent + events.len() <= chars.len() <= usize::MAX,
        forall|k: int| 0 <= k < events.len() ==> (#[trigger] events[k]).outcome() is Ok,
    ensures
        step::run(
            type_xpath_next(),
            state,
            TypingXpath::send(page, chars, sent, report),
            events,
        ) == (state, TypingXpath::send(page, chars, (sent + events.len()) as usize, report)),
    decreases events.len(),
{
    if events.len() > 0 {
        let rest = events.drop_first();
        assert forall|k: int| 0 <= k < rest.len() implies (#[trigger] rest[k]).outcome() is Ok by {
            assert(rest[k] == events[k + 1]);
        }
        assert(events[0].outcome() is Ok);
        lemma_keys_in_order(state, page, chars, (sent + 1) as usize, report, rest);
    }
}

} // verus!
