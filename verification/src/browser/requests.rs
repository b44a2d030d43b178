//! What operations ask of the browser, and what they make of its answers: laws in terms of the
//! texts that are sent and of the values that come back.

use vstd::prelude::*;

use crate::browser::evaluation::FillingForm;
use crate::browser::ManagerView;
use crate::error::ErrorView;
use crate::json::{Json, JsonView};
use crate::scripts;
use crate::step::{ActionView, Cookie, CookieView, ElementId, Event, PageId, StepView};
use crate::text;

verus! {

/// A step asks for an action.
pub open spec fn asks<P, T>(step: StepView<P, T>, action: ActionView) -> bool {
    step matches StepView::Ask(asked, _) && asked == action
}

/// A step runs a script on a page.
pub open spec fn sends<P, T>(step: StepView<P, T>, page: PageId, script: Seq<char>) -> bool {
    asks(step, ActionView::Evaluate { page, script })
}

/// A step ends with a value.
pub open spec fn gives<P, T>(step: StepView<P, T>, value: T) -> bool {
    step == StepView::<P, T>::Done(Ok(value))
}

/// A step ends with an error.
pub open spec fn fails<P, T>(step: StepView<P, T>, e: ErrorView) -> bool {
    step == StepView::<P, T>::Done(Err(e))
}

/// The active page is the one at the active place, and there is none where that place has none.
pub proof fn lemma_page(state: ManagerView)
    ensures
        0 <= state.active_page_index < state.pages.len() ==> state.page() == Some(
            state.pages[state.active_page_index],
        ),
        state.active_page_index < 0 || state.active_page_index >= state.pages.len()
            ==> state.page() is None,
{
}

/// What an answer says: a failure is an error of the browser with its message wherever one
/// matters, a click or a script that took too long counts as done, and a value, a text, a page or
/// an element is taken as it came.
pub proof fn lemma_answers(
    m: String,
    v: Json,
    t: String,
    b: Vec<u8>,
    p: PageId,
    pages: Vec<PageId>,
    e: ElementId,
    n: u128,
)
    ensures
        ({
            let failed = Event::Failed(m);
            let error = ErrorView::Cdp(m@);
            &&& failed.failure() == Some(m@)
            &&& failed.outcome() == Err::<(), ErrorView>(error)
            &&& failed.value() == Err::<JsonView, ErrorView>(error)
            &&& failed.bytes() == Err::<Seq<u8>, ErrorView>(error)
            &&& failed.page() == Err::<PageId, ErrorView>(error)
            &&& failed.pages() == Err::<Seq<PageId>, ErrorView>(error)
            &&& failed.text_or_failure() == Err::<Seq<char>, ErrorView>(error)
            &&& failed.text() == Seq::<char>::empty()
            &&& failed.element() is None
            &&& !failed.flag()
        }),
        Event::Done.failure() is None,
        Event::TimedOut.failure() is None,
        Event::Done.outcome() == Ok::<(), ErrorView>(()),
        Event::TimedOut.outcome() == Ok::<(), ErrorView>(()),
        Event::Value(v).outcome() == Ok::<(), ErrorView>(()),
        Event::Value(v).value() == Ok::<JsonView, ErrorView>(v.deep_view()),
        Event::Done.value() == Ok::<JsonView, ErrorView>(JsonView::Null),
        Event::Text(t).text() == t@,
        Event::Text(t).text_or_failure() == Ok::<Seq<char>, ErrorView>(t@),
        Event::Bytes(b).bytes() == Ok::<Seq<u8>, ErrorView>(b@),
        Event::Page(p).page() == Ok::<PageId, ErrorView>(p),
        Event::Pages(pages).pages() == Ok::<Seq<PageId>, ErrorView>(pages@),
        Event::Element(e).element() == Some(e),
        Event::Millis(n).millis() == n,
        Event::Flag(true).flag(),
        !Event::Flag(false).flag(),
{
}

/// An address is loaded in the active page, which settles for half a second; then its title is
/// the result, and a page that does not load is an error. Without a page nothing is asked.
pub proof fn lemma_navigate(
    state: ManagerView,
    page: PageId,
    url: Seq<char>,
    loaded: Event,
    slept: Event,
    title: String,
    m: String,
)
    ensures
        state.page() is None ==> fails(state.navigate(url), ErrorView::NoPage),
        state.page() == Some(page) ==> {
            let first = state.navigate(url);
            let second = first->Ask_1.next(loaded);
            let third = second->Ask_1.next(slept);
            &&& asks(first, ActionView::Goto { page, url })
            &&& fails(first->Ask_1.next(Event::Failed(m)), ErrorView::Cdp(m@))
            &&& !(loaded is Failed) ==> {
                &&& asks(second, ActionView::Sleep { ms: 500 })
                &&& asks(third, ActionView::PageTitle { page })
                &&& gives(third->Ask_1.next(Event::Text(title)), title@)
                &&& gives(third->Ask_1.next(Event::Failed(m)), seq![])
            }
        },
{
}

/// Pictures of the page are taken as they are asked for, and a failure to take one is an error;
/// one for a file is written under the path, which is the result, and a file that cannot be
/// written is an error of the process.
pub proof fn lemma_screenshots(
    state: ManagerView,
    page: PageId,
    path: Seq<char>,
    full_page: bool,
    quality: u8,
    bytes: Vec<u8>,
    m: String,
)
    ensures
        state.page() is None ==> {
            &&& fails(state.screenshot(full_page, quality), ErrorView::NoPage)
            &&& fails(state.screenshot_to_file(path, full_page, quality), ErrorView::NoPage)
        },
        state.page() == Some(page) ==> {
            let picture = ActionView::Screenshot { page, full_page, quality };
            let shot = state.screenshot(full_page, quality);
            let saved = state.screenshot_to_file(path, full_page, quality);
            let written = saved->Ask_1.next(Event::Bytes(bytes));
            &&& asks(shot, picture)
            &&& gives(
                shot->Ask_1.next(Event::Bytes(bytes)),
                crate::browser::page::base64_text(bytes@),
            )
            &&& fails(shot->Ask_1.next(Event::Failed(m)), ErrorView::Cdp(m@))
            &&& asks(saved, picture)
            &&& asks(written, ActionView::WriteBytes { path, bytes: bytes@ })
            &&& fails(saved->Ask_1.next(Event::Failed(m)), ErrorView::Cdp(m@))
            &&& gives(written->Ask_1.next(Event::Done), path)
            &&& fails(
                written->Ask_1.next(Event::Failed(m)),
                ErrorView::ProcessError("Failed to write: "@ + m@),
            )
        },
{
}

/// Operations on an element look for it by its selector on the active page. An element that is
/// not there is an error that names the selector, but for the question whether it is there.
pub proof fn lemma_elements_are_looked_for(
    state: ManagerView,
    page: PageId,
    selector: Seq<char>,
    text: Seq<char>,
    clear: bool,
    m: String,
)
    ensures
        state.page() == Some(page) ==> {
            let look = ActionView::FindElement { page, selector };
            let missing = ErrorView::ElementNotFound(selector);
            let none = Event::Failed(m);
            &&& asks(state.click_selector(selector), look)
            &&& asks(state.type_text(selector, text, clear), look)
            &&& asks(state.screenshot_element(selector), look)
            &&& asks(state.get_html(Some(selector)), look)
            &&& asks(state.get_text(selector), look)
            &&& asks(state.hover(selector), look)
            &&& asks(state.focus(selector), look)
            &&& asks(state.element_exists(selector), look)
            &&& fails(state.click_selector(selector)->Ask_1.next(none), missing)
            &&& fails(
                state.type_next(state.type_text(selector, text, clear)->Ask_1, none),
                missing,
            )
            &&& fails(state.screenshot_element(selector)->Ask_1.next(none), missing)
            &&& fails(state.get_html(Some(selector))->Ask_1.next(none), missing)
            &&& fails(state.get_text(selector)->Ask_1.next(none), missing)
            &&& fails(state.hover(selector)->Ask_1.next(none), missing)
            &&& fails(state.focus(selector)->Ask_1.next(none), missing)
            &&& gives(state.element_exists(selector)->Ask_1.next(none), false)
        },
        state.page() is None ==> {
            &&& fails(state.click_selector(selector), ErrorView::NoPage)
            &&& fails(state.type_text(selector, text, clear), ErrorView::NoPage)
            &&& fails(state.screenshot_element(selector), ErrorView::NoPage)
            &&& fails(state.get_html(Some(selector)), ErrorView::NoPage)
            &&& fails(state.get_html(None), ErrorView::NoPage)
            &&& fails(state.get_text(selector), ErrorView::NoPage)
            &&& fails(state.hover(selector), ErrorView::NoPage)
            &&& fails(state.focus(selector), ErrorView::NoPage)
            &&& fails(state.element_exists(selector), ErrorView::NoPage)
        },
{
}

/// What is done with an element that was found, and what comes of it: it is clicked within five
/// seconds, pictured, read, scrolled to or focused, and the HTML of the whole page is read where
/// no element is named.
pub proof fn lemma_elements_found(
    state: ManagerView,
    page: PageId,
    selector: Seq<char>,
    element: ElementId,
    bytes: Vec<u8>,
    t: String,
    m: String,
)
    requires
        state.page() == Some(page),
    ensures
        ({
            let found = Event::Element(element);
            let failed = Event::Failed(m);
            let error = ErrorView::Cdp(m@);
            let click = state.click_selector(selector)->Ask_1.next(found);
            let picture = state.screenshot_element(selector)->Ask_1.next(found);
            let html = state.get_html(Some(selector))->Ask_1.next(found);
            let whole = state.get_html(None);
            let inner = state.get_text(selector)->Ask_1.next(found);
            let hover = state.hover(selector)->Ask_1.next(found);
            let focus = state.focus(selector)->Ask_1.next(found);
            &&& asks(click, ActionView::ClickElement { element, limit_ms: 5000 })
            &&& gives(click->Ask_1.next(Event::Done), ())
            &&& gives(click->Ask_1.next(Event::TimedOut), ())
            &&& fails(click->Ask_1.next(failed), error)
            &&& asks(picture, ActionView::ElementScreenshot { element })
            &&& gives(
                picture->Ask_1.next(Event::Bytes(bytes)),
                crate::browser::page::base64_text(bytes@),
            )
            &&& fails(picture->Ask_1.next(failed), error)
            &&& asks(html, ActionView::ElementHtml { element })
            &&& gives(html->Ask_1.next(Event::Text(t)), t@)
            &&& fails(html->Ask_1.next(Event::Done), ErrorView::Cdp("No HTML"@))
            &&& fails(html->Ask_1.next(failed), error)
            &&& asks(whole, ActionView::PageContent { page })
            &&& gives(whole->Ask_1.next(Event::Text(t)), t@)
            &&& fails(whole->Ask_1.next(failed), error)
            &&& asks(inner, ActionView::ElementText { element })
            &&& gives(inner->Ask_1.next(Event::Text(t)), t@)
            &&& fails(inner->Ask_1.next(Event::Done), ErrorView::Cdp("No text"@))
            &&& fails(inner->Ask_1.next(failed), error)
            &&& asks(hover, ActionView::ScrollIntoView { element })
            &&& gives(hover->Ask_1.next(Event::Done), ())
            &&& gives(hover->Ask_1.next(failed), ())
            &&& asks(focus, ActionView::FocusElement { element })
            &&& gives(focus->Ask_1.next(Event::Done), ())
            &&& fails(focus->Ask_1.next(failed), error)
            &&& gives(state.element_exists(selector)->Ask_1.next(found), true)
        }),
{
}

/// Text is typed into the element that was found, after what it held was cleared where that was
/// asked for, whatever came of it.
pub proof fn lemma_typing(
    state: ManagerView,
    page: PageId,
    selector: Seq<char>,
    text: Seq<char>,
    clear: bool,
    element: ElementId,
    cleared: Event,
    m: String,
)
    requires
        state.page() == Some(page),
    ensures
        ({
            let found = state.type_next(
                state.type_text(selector, text, clear)->Ask_1,
                Event::Element(element),
            );
            let typing = if clear {
                state.type_next(found->Ask_1, cleared)
            } else {
                found
            };
            &&& clear ==> sends(
                found,
                page,
                "document.querySelector('"@ + text::escaped(selector, '\'') + "').value = ''"@,
            )
            &&& asks(typing, ActionView::TypeText { element, text })
            &&& gives(state.type_next(typing->Ask_1, Event::Done), ())
            &&& fails(state.type_next(typing->Ask_1, Event::Failed(m)), ErrorView::Cdp(m@))
        }),
{
}

/// A click at a point is a click on the element there, within five seconds.
pub proof fn lemma_click_coords(state: ManagerView, page: PageId, x: i32, y: i32, m: String)
    ensures
        state.page() is None ==> fails(state.click_coords(x, y), ErrorView::NoPage),
        state.page() == Some(page) ==> {
            let first = state.click_coords(x, y);
            &&& asks(
                first,
                ActionView::EvaluateWithin {
                    page,
                    script: "document.elementFromPoint("@ + text::integer(x as int) + ", "@
                        + text::integer(y as int) + ")?.click()"@,
                    limit_ms: 5000,
                },
            )
            &&& gives(first->Ask_1.next(Event::TimedOut), ())
            &&& gives(first->Ask_1.next(Event::Done), ())
            &&& fails(first->Ask_1.next(Event::Failed(m)), ErrorView::Cdp(m@))
        },
{
}

/// What a key is called by the browser, for each name in lower case that stands for one; any
/// other key goes by the name that it was given.
pub proof fn lemma_key_names(key: Seq<char>, lower: Seq<char>)
    ensures
        lower == "enter"@ || lower == "return"@ ==> crate::browser::input::key_name(lower, key)
            == "Enter"@,
        lower == "tab"@ ==> crate::browser::input::key_name(lower, key) == "Tab"@,
        lower == "escape"@ || lower == "esc"@ ==> crate::browser::input::key_name(lower, key)
            == "Escape"@,
        lower == "backspace"@ ==> crate::browser::input::key_name(lower, key) == "Backspace"@,
        lower == "delete"@ ==> crate::browser::input::key_name(lower, key) == "Delete"@,
        lower == "arrowup"@ || lower == "up"@ ==> crate::browser::input::key_name(lower, key)
            == "ArrowUp"@,
        lower == "arrowdown"@ || lower == "down"@ ==> crate::browser::input::key_name(lower, key)
            == "ArrowDown"@,
        lower == "arrowleft"@ || lower == "left"@ ==> crate::browser::input::key_name(lower, key)
            == "ArrowLeft"@,
        lower == "arrowright"@ || lower == "right"@ ==> crate::browser::input::key_name(
            lower,
            key,
        ) == "ArrowRight"@,
        lower == "space"@ ==> crate::browser::input::key_name(lower, key) == "Space"@,
        !known_key(lower) ==> crate::browser::input::key_name(lower, key) == key,
{
    reveal_strlit("enter");
    reveal_strlit("return");
    reveal_strlit("tab");
    reveal_strlit("escape");
    reveal_strlit("esc");
    reveal_strlit("backspace");
    reveal_strlit("delete");
    reveal_strlit("arrowup");
    reveal_strlit("up");
    reveal_strlit("arrowdown");
    reveal_strlit("down");
    reveal_strlit("arrowleft");
    reveal_strlit("left");
    reveal_strlit("arrowright");
    reveal_strlit("right");
    reveal_strlit("space");
    assert("enter"@.len() == 5);
    assert("return"@.len() == 6);
    assert("tab"@.len() == 3);
    assert("escape"@.len() == 6);
    assert("esc"@.len() == 3);
    assert("backspace"@.len() == 9);
    assert("delete"@.len() == 6);
    assert("arrowup"@.len() == 7);
    assert("up"@.len() == 2);
    assert("arrowdown"@.len() == 9);
    assert("down"@.len() == 4);
    assert("arrowleft"@.len() == 9);
    assert("left"@.len() == 4);
    assert("arrowright"@.len() == 10);
    assert("right"@.len() == 5);
    assert("space"@.len() == 5);
    // Names of one length that differ in a letter.
    assert("return"@[0] != "escape"@[0]);
    assert("return"@[0] != "delete"@[0]);
    assert("escape"@[0] != "delete"@[0]);
    assert("tab"@[0] != "esc"@[0]);
    assert("enter"@[0] != "right"@[0]);
    assert("enter"@[0] != "space"@[0]);
    assert("right"@[0] != "space"@[0]);
    assert("backspace"@[0] != "arrowdown"@[0]);
    assert("backspace"@[0] != "arrowleft"@[0]);
    assert("arrowdown"@[5] != "arrowleft"@[5]);
    assert("down"@[0] != "left"@[0]);
}

/// A name in lower case that stands for a key.
pub open spec fn known_key(lower: Seq<char>) -> bool {
    ||| lower == "enter"@
    ||| lower == "return"@
    ||| lower == "tab"@
    ||| lower == "escape"@
    ||| lower == "esc"@
    ||| lower == "backspace"@
    ||| lower == "delete"@
    ||| lower == "arrowup"@
    ||| lower == "up"@
    ||| lower == "arrowdown"@
    ||| lower == "down"@
    ||| lower == "arrowleft"@
    ||| lower == "left"@
    ||| lower == "arrowright"@
    ||| lower == "right"@
    ||| lower == "space"@
}

/// A key that is pressed goes down and then up, on one page and under one name: that of its name
/// in lower case.
pub proof fn lemma_press_key(state: ManagerView, page: PageId, key: Seq<char>, m: String)
    ensures
        state.page() is None ==> fails(state.press_key(key), ErrorView::NoPage),
        state.page() == Some(page) ==> {
            let name = crate::browser::input::key_name(text::lowercase(key), key);
            let down = state.press_key(key);
            let up = down->Ask_1.next(Event::Done);
            &&& asks(down, ActionView::KeyDown { page, key: name })
            &&& fails(down->Ask_1.next(Event::Failed(m)), ErrorView::Cdp(m@))
            &&& asks(up, ActionView::KeyUp { page, key: name })
            &&& gives(up->Ask_1.next(Event::Done), ())
            &&& fails(up->Ask_1.next(Event::Failed(m)), ErrorView::Cdp(m@))
        },
{
}

/// Operations that run one script send it to the active page, and without a page they fail. What
/// the script gives is the value, the list or the address, where it is one.
pub proof fn lemma_scripts_sent(state: ManagerView, page: PageId, script: Seq<char>)
    ensures
        state.page() is None ==> {
            &&& fails(state.evaluate(script), ErrorView::NoPage)
            &&& fails(state.get_metrics(), ErrorView::NoPage)
            &&& fails(state.get_forms(), ErrorView::NoPage)
            &&& fails(state.get_clickables(), ErrorView::NoPage)
            &&& fails(state.get_url(), ErrorView::NoPage)
            &&& fails(state.go_back(), ErrorView::NoPage)
            &&& fails(state.go_forward(), ErrorView::NoPage)
            &&& fails(state.reload(), ErrorView::NoPage)
            &&& fails(state.inject_script(script), ErrorView::NoPage)
            &&& fails(state.get_intercepted_requests(), ErrorView::NoPage)
            &&& fails(state.clear_intercepted(), ErrorView::NoPage)
            &&& fails(state.disable_interception(), ErrorView::NoPage)
            &&& fails(state.get_cookies(), ErrorView::NoPage)
        },
        state.page() == Some(page) ==> {
            &&& sends(state.evaluate(script), page, script)
            &&& sends(state.get_metrics(), page, scripts::METRICS@)
            &&& sends(state.get_forms(), page, scripts::FORMS@)
            &&& sends(state.get_clickables(), page, scripts::CLICKABLES@)
            &&& sends(state.get_url(), page, "window.location.href"@)
            &&& sends(state.go_back(), page, "window.history.back()"@)
            &&& sends(state.go_forward(), page, "window.history.forward()"@)
            &&& sends(state.reload(), page, "window.location.reload()"@)
            &&& sends(state.inject_script(script), page, "(function(){ "@ + script + " })()"@)
            &&& sends(
                state.get_intercepted_requests(),
                page,
                "JSON.stringify(window.__mcp_intercepted || [])"@,
            )
            &&& sends(state.clear_intercepted(), page, "window.__mcp_intercepted = []"@)
            &&& sends(state.disable_interception(), page, scripts::DISABLE_INTERCEPTION@)
            &&& asks(state.get_cookies(), ActionView::ReadCookies { page })
        },
{
}

/// What becomes of the value of a script.
pub proof fn lemma_script_values(
    state: ManagerView,
    page: PageId,
    script: Seq<char>,
    v: Json,
    items: Seq<JsonView>,
    address: Seq<char>,
    m: String,
)
    requires
        state.page() == Some(page),
    ensures
        ({
            let value = Event::Value(v);
            let failed = Event::Failed(m);
            let error = ErrorView::Cdp(m@);
            let run = state.inject_script(script);
            &&& gives(state.evaluate(script)->Ask_1.next(value), v.deep_view())
            &&& gives(state.evaluate(script)->Ask_1.next(Event::Done), JsonView::Null)
            &&& fails(state.evaluate(script)->Ask_1.next(failed), error)
            &&& gives(state.get_metrics()->Ask_1.next(value), v.deep_view())
            &&& fails(state.get_metrics()->Ask_1.next(failed), error)
            &&& gives(state.get_forms()->Ask_1.next(value), v.deep_view())
            &&& fails(state.get_forms()->Ask_1.next(failed), error)
            &&& gives(state.get_intercepted_requests()->Ask_1.next(value), v.deep_view())
            &&& gives(run->Ask_1.next(value), ())
            &&& fails(run->Ask_1.next(failed), error)
            &&& gives(state.clear_intercepted()->Ask_1.next(value), ())
            &&& fails(state.clear_intercepted()->Ask_1.next(failed), error)
            &&& gives(
                state.disable_interception()->Ask_1.next(value),
                "Interception disabled, all routes cleared"@,
            )
            &&& fails(state.disable_interception()->Ask_1.next(failed), error)
            &&& v.deep_view() == JsonView::Array(items) ==> gives(
                state.get_clickables()->Ask_1.next(value),
                items,
            )
            &&& !(v.deep_view() is Array) ==> gives(
                state.get_clickables()->Ask_1.next(value),
                seq![],
            )
            &&& fails(state.get_clickables()->Ask_1.next(failed), error)
            &&& v.deep_view() == JsonView::Text(address) ==> gives(
                state.get_url()->Ask_1.next(value),
                address,
            )
            &&& !(v.deep_view() is Text) ==> fails(
                state.get_url()->Ask_1.next(value),
                ErrorView::Cdp("No URL"@),
            )
            &&& fails(state.get_url()->Ask_1.next(failed), error)
        }),
{
}

/// The page settles after what changes it: half a second after going back or forward and after a
/// form was submitted, a second after loading again. A wait for the network is a pause as long as
/// asked for, five seconds at most.
pub proof fn lemma_settling(
    state: ManagerView,
    page: PageId,
    selector: Seq<char>,
    timeout_ms: u64,
    v: Json,
    slept: Event,
    m: String,
)
    requires
        state.page() == Some(page),
    ensures
        ({
            let value = Event::Value(v);
            let half = ActionView::Sleep { ms: 500 };
            let submit = state.submit_form(selector);
            &&& sends(
                submit,
                page,
                "document.querySelector('"@ + text::escaped(selector, '\'') + "')?.submit()"@,
            )
            &&& asks(submit->Ask_1.next(value), half)
            &&& asks(state.go_back()->Ask_1.next(value), half)
            &&& asks(state.go_forward()->Ask_1.next(value), half)
            &&& asks(state.reload()->Ask_1.next(value), ActionView::Sleep { ms: 1000 })
            &&& fails(submit->Ask_1.next(Event::Failed(m)), ErrorView::Cdp(m@))
            &&& fails(state.go_back()->Ask_1.next(Event::Failed(m)), ErrorView::Cdp(m@))
            &&& fails(state.go_forward()->Ask_1.next(Event::Failed(m)), ErrorView::Cdp(m@))
            &&& fails(state.reload()->Ask_1.next(Event::Failed(m)), ErrorView::Cdp(m@))
            &&& gives(submit->Ask_1.next(value)->Ask_1.next(slept), ())
            &&& gives(state.reload()->Ask_1.next(value)->Ask_1.next(slept), ())
        }),
        timeout_ms <= 5000 ==> asks(
            state.wait_network_idle(timeout_ms),
            ActionView::Sleep { ms: timeout_ms },
        ),
        timeout_ms > 5000 ==> asks(
            state.wait_network_idle(timeout_ms),
            ActionView::Sleep { ms: 5000 },
        ),
        gives(state.wait_network_idle(timeout_ms)->Ask_1.next(slept), ()),
{
}

/// The window is scrolled by the amount: up and left are against it, and any unknown direction
/// is down.
pub proof fn lemma_scroll(state: ManagerView, page: PageId, direction: Seq<char>, amount: i32)
    requires
        state.page() == Some(page),
        amount > i32::MIN,
    ensures
        ({
            let plus = text::integer(amount as int);
            let minus = text::integer(-amount as int);
            let step = state.scroll(direction, amount);
            &&& direction == "up"@ ==> sends(
                step,
                page,
                "window.scrollBy("@ + text::integer(0) + ", "@ + minus + ")"@,
            )
            &&& direction == "down"@ ==> sends(
                step,
                page,
                "window.scrollBy("@ + text::integer(0) + ", "@ + plus + ")"@,
            )
            &&& direction == "left"@ ==> sends(
                step,
                page,
                "window.scrollBy("@ + minus + ", "@ + text::integer(0) + ")"@,
            )
            &&& direction == "right"@ ==> sends(
                step,
                page,
                "window.scrollBy("@ + plus + ", "@ + text::integer(0) + ")"@,
            )
            &&& direction != "up"@ && direction != "left"@ && direction != "right"@ ==> sends(
                step,
                page,
                "window.scrollBy("@ + text::integer(0) + ", "@ + plus + ")"@,
            )
        }),
{
    reveal_strlit("up");
    reveal_strlit("down");
    reveal_strlit("left");
    reveal_strlit("right");
    assert("down"@.len() == 4 && "left"@.len() == 4 && "right"@.len() == 5 && "up"@.len() == 2);
    assert("down"@[0] != "left"@[0]);
}

/// An element is measured by its selector, and its four numbers are the result; anything else is
/// an element that is not there.
pub proof fn lemma_bounds(
    state: ManagerView,
    page: PageId,
    selector: Seq<char>,
    v: Json,
    items: Seq<JsonView>,
)
    requires
        state.page() == Some(page),
    ensures
        ({
            let step = state.get_element_bounds(selector);
            let end = step->Ask_1.next(Event::Value(v));
            &&& sends(
                step,
                page,
                scripts::BOUNDS_HEAD@ + text::escaped(selector, '\'') + scripts::BOUNDS_TAIL@,
            )
            &&& v.deep_view() == JsonView::Array(items) && items.len() == 4 ==> gives(end, items)
            &&& v.deep_view() == JsonView::Array(items) && items.len() != 4 ==> fails(
                end,
                ErrorView::ElementNotFound(selector),
            )
            &&& !(v.deep_view() is Array) ==> fails(end, ErrorView::ElementNotFound(selector))
        }),
{
}

/// A value is chosen in the field that the selector names, and the field is told of the change.
pub proof fn lemma_select_option(
    state: ManagerView,
    page: PageId,
    selector: Seq<char>,
    value: Seq<char>,
)
    requires
        state.page() == Some(page),
    ensures
        ({
            let field = "document.querySelector('"@ + text::escaped(selector, '\'');
            sends(
                state.select_option(selector, value),
                page,
                field + ("').value = '"@ + text::escaped(value, '\'') + scripts::SELECT_EVENT@
                    + text::escaped(selector, '\'')
                    + "').dispatchEvent(new Event('change'));"@),
            )
        }),
{
    let field = "document.querySelector('"@ + text::escaped(selector, '\'');
    let sent = "document.querySelector('"@ + text::escaped(selector, '\'') + "').value = '"@
        + text::escaped(value, '\'') + scripts::SELECT_EVENT@ + text::escaped(selector, '\'')
        + "').dispatchEvent(new Event('change'));"@;
    assert(sent =~= field + ("').value = '"@ + text::escaped(value, '\'')
        + scripts::SELECT_EVENT@ + text::escaped(selector, '\'')
        + "').dispatchEvent(new Event('change'));"@));
}

/// The script that sets one field: it looks up the form by its selector, in it the field by its
/// name, and sets the value.
pub open spec fn sets_field(form: Seq<char>, name: Seq<char>, value: Seq<char>) -> Seq<char> {
    "document.querySelector('"@ + text::escaped(form, '\'') + "')?.querySelector('[name=\""@
        + text::escaped(name, '"') + "\"]')?.setAttribute('value', '"@ + text::escaped(
        value,
        '\'',
    ) + "')"@
}

/// The members of data that are strings.
pub open spec fn string_members(fields: Seq<(Seq<char>, JsonView)>) -> Seq<(Seq<char>, JsonView)> {
    fields.filter(|f: (Seq<char>, JsonView)| f.1 is Text)
}

/// What comes after an event while a form is filled.
pub open spec fn fill_next() -> spec_fn(ManagerView, FillingForm<Seq<Seq<char>>>, Event) -> (
    ManagerView,
    StepView<FillingForm<Seq<Seq<char>>>, ()>,
) {
    |state: ManagerView, stage: FillingForm<Seq<Seq<char>>>, event: Event|
        (state, state.fill_form_next(stage, event))
}

proof fn lemma_form_scripts(form: Seq<char>, fields: Seq<(Seq<char>, JsonView)>)
    ensures
        crate::browser::evaluation::fill_scripts(form, fields).len() == string_members(
            fields,
        ).len(),
        forall|k: int|
            0 <= k < string_members(fields).len() ==> (
            #[trigger] crate::browser::evaluation::fill_scripts(form, fields)[k]) == sets_field(
                form,
                string_members(fields)[k].0,
                string_members(fields)[k].1->Text_0,
            ),
    decreases fields.len(),
{
    reveal(Seq::filter);
    if fields.len() > 0 {
        lemma_form_scripts(form, fields.drop_last());
        let before = crate::browser::evaluation::fill_scripts(form, fields.drop_last());
        let strings = string_members(fields.drop_last());
        if fields.last().1 is Text {
            assert(string_members(fields) =~= strings.push(fields.last()));
        } else {
            assert(string_members(fields) =~= strings);
        }
    }
}

proof fn lemma_fill_run(
    state: ManagerView,
    page: PageId,
    rest: Seq<Seq<char>>,
    events: Seq<Event>,
)
    requires
        state.page() == Some(page),
        events.len() <= rest.len(),
    ensures
        ({
            let (after, end) = crate::step::run(
                fill_next(),
                state,
                state.fill_next(rest),
                events,
            );
            &&& after == state
            &&& events.len() < rest.len() ==> sends(end, page, rest[events.len() as int])
            &&& events.len() == rest.len() ==> gives(end, ())
        }),
    decreases events.len(),
{
    if events.len() > 0 {
        lemma_fill_run(state, page, rest.drop_first(), events.drop_first());
    }
}

/// A form is filled field by field: for each member of the data that is a string, in order,
/// the field of its name is set to its value, whatever came of the fields before; then it is done.
/// Data that is no object fills nothing.
pub proof fn lemma_fill_form(
    state: ManagerView,
    page: PageId,
    form: Seq<char>,
    fields: Seq<(Seq<char>, JsonView)>,
    events: Seq<Event>,
)
    requires
        state.page() == Some(page),
        events.len() <= string_members(fields).len(),
    ensures
        ({
            let strings = string_members(fields);
            let first = state.fill_form(form, JsonView::Object(fields));
            let (after, end) = crate::step::run(fill_next(), state, first, events);
            let k = events.len() as int;
            &&& after == state
            &&& k < strings.len() ==> sends(
                end,
                page,
                sets_field(form, strings[k].0, strings[k].1->Text_0),
            )
            &&& k == strings.len() ==> gives(end, ())
        }),
        gives(state.fill_form(form, JsonView::Null), ()),
{
    lemma_form_scripts(form, fields);
    lemma_fill_run(
        state,
        page,
        crate::browser::evaluation::fill_scripts(form, fields),
        events,
    );
}

/// Cookies are set as they are given. They are read from the browser, and where it does not tell
/// them, by a script whose array is the list.
pub proof fn lemma_cookies(
    state: ManagerView,
    page: PageId,
    cookie: CookieView,
    told: Vec<Cookie>,
    v: Json,
    items: Seq<JsonView>,
    m: String,
    i: int,
)
    requires
        state.page() == Some(page),
    ensures
        asks(
            state.set_cookie(cookie),
            ActionView::SetCookie {
                page,
                name: cookie.name,
                value: cookie.value,
                domain: cookie.domain,
            },
        ),
        gives(state.set_cookie(cookie)->Ask_1.next(Event::Done), ()),
        fails(state.set_cookie(cookie)->Ask_1.next(Event::Failed(m)), ErrorView::Cdp(m@)),
        ({
            let read = state.get_cookies()->Ask_1;
            let listed = state.cookies_next(read, Event::Cookies(told));
            let script = state.cookies_next(read, Event::Failed(m));
            let end = state.cookies_next(script->Ask_1, Event::Value(v));
            &&& listed matches StepView::Done(Ok(list)) && list.len() == told@.len() && (0 <= i
                < told@.len() ==> list[i] == JsonView::Object(
                seq![
                    ("name"@, JsonView::Text(told@[i].name@)),
                    ("value"@, JsonView::Text(told@[i].value@)),
                    ("domain"@, JsonView::Text(told@[i].domain@)),
                ],
            ))
            &&& sends(script, page, scripts::READ_COOKIES@)
            &&& v.deep_view() == JsonView::Array(items) ==> gives(end, items)
            &&& !(v.deep_view() is Array) ==> gives(end, seq![])
            &&& fails(
                state.cookies_next(script->Ask_1, Event::Failed(m)),
                ErrorView::Cdp(m@),
            )
        }),
{
}

/// How a message names what was waited for.
pub open spec fn named(what: Seq<char>, check_visible: bool) -> Seq<char> {
    if check_visible {
        what + " (visible)"@
    } else {
        what
    }
}

/// A wait for a selector, look by look: the timer is read; while there is time the element is
/// looked for; one that is found ends the wait, or, where it is to be visible, is looked at by a
/// script and ends it if that says `true`; otherwise a tenth of a second later the timer is read
/// again. Once the time is over the wait fails and names what it waited for.
pub proof fn lemma_wait_for_requests(
    state: ManagerView,
    page: PageId,
    selector: Seq<char>,
    timeout_ms: u64,
    check_visible: bool,
    element: ElementId,
    v: Json,
    n: u128,
    any: Event,
    m: String,
)
    ensures
        state.page() is None ==> fails(
            state.wait_for(selector, timeout_ms, check_visible),
            ErrorView::NoPage,
        ),
        state.page() == Some(page) ==> {
            let pause = ActionView::Sleep { ms: 100 };
            let first = state.wait_for(selector, timeout_ms, check_visible);
            let timing = first->Ask_1.next(any);
            let look = timing->Ask_1.next(Event::Millis(n));
            let found = look->Ask_1.next(Event::Element(element));
            let missed = look->Ask_1.next(Event::Failed(m));
            &&& asks(first, ActionView::StartTimer)
            &&& asks(timing, ActionView::ReadTimer)
            &&& n >= timeout_ms ==> fails(
                look,
                ErrorView::Timeout("Waiting for "@ + named(selector, check_visible)),
            )
            &&& n < timeout_ms ==> {
                &&& asks(look, ActionView::FindElement { page, selector })
                &&& asks(missed, pause)
                &&& asks(missed->Ask_1.next(any), ActionView::ReadTimer)
                &&& !check_visible ==> gives(found, ())
                &&& check_visible ==> {
                    let seen = found->Ask_1.next(Event::Value(v));
                    &&& sends(
                        found,
                        page,
                        scripts::VISIBLE_HEAD@ + text::escaped(selector, '\'')
                            + scripts::VISIBLE_TAIL@,
                    )
                    &&& v.deep_view() == JsonView::Bool(true) ==> gives(seen, ())
                    &&& v.deep_view() != JsonView::Bool(true) ==> asks(seen, pause)
                    &&& asks(found->Ask_1.next(Event::Failed(m)), pause)
                }
            }
        },
{
    assert(selector + ""@ =~= selector) by {
        reveal_strlit("");
    }
}

/// A wait for an XPath expression, look by look: while there is time a script is sent that looks
/// for the element and at it; it ends the wait where it says that the element was found, and
/// visible where that was asked for; otherwise a tenth of a second later the timer is read again.
/// Once the time is over the wait fails and names what it waited for.
pub proof fn lemma_wait_for_xpath_requests(
    state: ManagerView,
    page: PageId,
    xpath: Seq<char>,
    timeout_ms: u64,
    check_visible: bool,
    v: Json,
    n: u128,
    any: Event,
    m: String,
)
    ensures
        ({
            let pause = ActionView::Sleep { ms: 100 };
            let first = state.wait_for_xpath(xpath, timeout_ms, check_visible);
            let timing = state.wait_xpath_next(first->Ask_1, any);
            let look = state.wait_xpath_next(timing->Ask_1, Event::Millis(n));
            &&& asks(first, ActionView::StartTimer)
            &&& asks(timing, ActionView::ReadTimer)
            &&& n >= timeout_ms ==> fails(
                look,
                ErrorView::Timeout("Waiting for xpath: "@ + named(xpath, check_visible)),
            )
            &&& n < timeout_ms && state.page() is None ==> {
                &&& asks(look, pause)
                &&& asks(state.wait_xpath_next(look->Ask_1, any), ActionView::ReadTimer)
            }
            &&& n < timeout_ms && state.page() == Some(page) ==> {
                let seen = state.wait_xpath_next(look->Ask_1, Event::Value(v));
                let missed = state.wait_xpath_next(look->Ask_1, Event::Failed(m));
                let found = v.deep_view().get("found"@) == Some(JsonView::Bool(true));
                let visible = v.deep_view().get("visible"@) == Some(JsonView::Bool(true));
                &&& sends(
                    look,
                    page,
                    scripts::XPATH_STATE_HEAD@ + text::escaped(xpath, '"')
                        + scripts::XPATH_STATE_TAIL@,
                )
                &&& found && (visible || !check_visible) ==> gives(seen, ())
                &&& !found || (check_visible && !visible) ==> asks(seen, pause)
                &&& asks(missed, pause)
                &&& asks(state.wait_xpath_next(missed->Ask_1, any), ActionView::ReadTimer)
            }
        }),
{
    assert(xpath + ""@ =~= xpath) by {
        reveal_strlit("");
    }
}

/// What is found under an XPath expression is asked for by one script, and `null` is an element
/// that is not there. A click and typing begin with the same question.
pub proof fn lemma_resolve_xpath(
    state: ManagerView,
    page: PageId,
    xpath: Seq<char>,
    text: Seq<char>,
    clear: bool,
    v: Json,
    m: String,
)
    ensures
        state.page() is None ==> {
            &&& fails(state.resolve_xpath(xpath), ErrorView::NoPage)
            &&& fails(state.click_xpath(xpath), ErrorView::NoPage)
            &&& fails(state.type_xpath(xpath, text, clear), ErrorView::NoPage)
        },
        state.page() == Some(page) ==> {
            let script = scripts::RESOLVE_XPATH_HEAD@ + text::escaped(xpath, '"')
                + scripts::RESOLVE_XPATH_TAIL@;
            let missing = ErrorView::ElementNotFound("xpath: "@ + xpath);
            let resolve = state.resolve_xpath(xpath);
            let click = state.click_xpath(xpath);
            let typing = state.type_xpath(xpath, text, clear);
            &&& sends(resolve, page, script)
            &&& sends(click, page, script)
            &&& sends(typing, page, script)
            &&& !(v.deep_view() is Null) ==> gives(
                resolve->Ask_1.next(Event::Value(v)),
                v.deep_view(),
            )
            &&& v.deep_view() is Null ==> {
                &&& fails(resolve->Ask_1.next(Event::Value(v)), missing)
                &&& fails(state.click_xpath_next(click->Ask_1, Event::Value(v)), missing)
                &&& fails(state.type_xpath_next(typing->Ask_1, Event::Value(v)), missing)
            }
            &&& fails(resolve->Ask_1.next(Event::Failed(m)), ErrorView::Cdp(m@))
            &&& fails(
                state.click_xpath_next(click->Ask_1, Event::Failed(m)),
                ErrorView::Cdp(m@),
            )
            &&& fails(
                state.type_xpath_next(typing->Ask_1, Event::Failed(m)),
                ErrorView::Cdp(m@),
            )
        },
{
}

/// The number of a member of what was found, 0 where it is none, in 32 bits.
pub open spec fn point(found: JsonView, name: Seq<char>) -> i32 {
    match found.get(name) {
        Some(number) => match number.as_i64() {
            Some(n) => n as i32,
            None => 0i64 as i32,
        },
        None => 0i64 as i32,
    }
}

/// A click on what was found: by its selector where it has one, else at its middle. The report
/// tells the text of the element, `?` where it has none, and how it was clicked.
pub proof fn lemma_click_found(
    state: ManagerView,
    page: PageId,
    xpath: Seq<char>,
    v: Json,
    selector: Seq<char>,
    label: Seq<char>,
    element: ElementId,
    m: String,
)
    requires
        state.page() == Some(page),
        !(v.deep_view() is Null),
    ensures
        ({
            let found = v.deep_view();
            let step = state.click_xpath_next(
                state.click_xpath(xpath)->Ask_1,
                Event::Value(v),
            );
            let shown = match found.get("text"@) {
                Some(JsonView::Text(t)) => t,
                _ => "?"@,
            };
            let by_selector = found.get("selector"@) == Some(JsonView::Text(selector))
                && selector.len() > 0;
            let x = point(found, "cx"@);
            let y = point(found, "cy"@);
            &&& by_selector ==> {
                let clicking = state.click_xpath_next(step->Ask_1, Event::Element(element));
                &&& asks(step, ActionView::FindElement { page, selector })
                &&& asks(clicking, ActionView::ClickElement { element, limit_ms: 5000 })
                &&& gives(
                    state.click_xpath_next(clicking->Ask_1, Event::Done),
                    "Clicked '"@ + shown + "' via "@ + selector,
                )
                &&& fails(
                    state.click_xpath_next(step->Ask_1, Event::Failed(m)),
                    ErrorView::ElementNotFound(selector),
                )
                &&& fails(
                    state.click_xpath_next(clicking->Ask_1, Event::Failed(m)),
                    ErrorView::Cdp(m@),
                )
            }
            &&& !(found.get("selector"@) matches Some(JsonView::Text(_))) ==> {
                &&& asks(
                    step,
                    ActionView::EvaluateWithin {
                        page,
                        script: "document.elementFromPoint("@ + text::integer(x as int) + ", "@
                            + text::integer(y as int) + ")?.click()"@,
                        limit_ms: 5000,
                    },
                )
                &&& gives(
                    state.click_xpath_next(step->Ask_1, Event::Done),
                    "Clicked '"@ + shown + "'"@ + (" at ("@ + text::integer(x as int) + ","@
                        + text::integer(y as int) + ")"@),
                )
                &&& fails(
                    state.click_xpath_next(step->Ask_1, Event::Failed(m)),
                    ErrorView::Cdp(m@),
                )
            }
        }),
{
    reveal_strlit("");
}

/// Typing into what was found: through its selector where it has one, else by a click at its
/// middle, a script that clears the focused element where that was asked for, and a key for each
/// character. The report tells how.
pub proof fn lemma_type_found(
    state: ManagerView,
    page: PageId,
    xpath: Seq<char>,
    text: Seq<char>,
    clear: bool,
    v: Json,
    selector: Seq<char>,
    element: ElementId,
    any: Event,
    m: String,
)
    requires
        state.page() == Some(page),
        !(v.deep_view() is Null),
    ensures
        ({
            let found = v.deep_view();
            let step = state.type_xpath_next(
                state.type_xpath(xpath, text, clear)->Ask_1,
                Event::Value(v),
            );
            let by_selector = found.get("selector"@) == Some(JsonView::Text(selector))
                && selector.len() > 0;
            let x = point(found, "cx"@);
            let y = point(found, "cy"@);
            &&& by_selector ==> {
                let located = state.type_xpath_next(step->Ask_1, Event::Element(element));
                let typing = if clear {
                    state.type_xpath_next(located->Ask_1, any)
                } else {
                    located
                };
                &&& asks(step, ActionView::FindElement { page, selector })
                &&& clear ==> sends(
                    located,
                    page,
                    "document.querySelector('"@ + text::escaped(selector, '\'')
                        + "').value = ''"@,
                )
                &&& asks(typing, ActionView::TypeText { element, text })
                &&& gives(
                    state.type_xpath_next(typing->Ask_1, Event::Done),
                    "Typed into xpath match via "@ + selector,
                )
                &&& fails(
                    state.type_xpath_next(step->Ask_1, Event::Failed(m)),
                    ErrorView::ElementNotFound(selector),
                )
            }
            &&& !(found.get("selector"@) matches Some(JsonView::Text(_))) ==> {
                let clicked = state.type_xpath_next(step->Ask_1, Event::Done);
                let keys = if clear {
                    state.type_xpath_next(clicked->Ask_1, any)
                } else {
                    clicked
                };
                &&& asks(
                    step,
                    ActionView::EvaluateWithin {
                        page,
                        script: "document.elementFromPoint("@ + text::integer(x as int) + ", "@
                            + text::integer(y as int) + ")?.click()"@,
                        limit_ms: 5000,
                    },
                )
                &&& clear ==> sends(clicked, page, "document.activeElement.value = ''"@)
                &&& text.len() > 0 ==> asks(
                    keys,
                    ActionView::KeyChar { page, text: seq![text[0]] },
                )
                &&& text.len() == 0 ==> gives(
                    keys,
                    "Typed into xpath match"@ + (" at ("@ + text::integer(x as int) + ","@
                        + text::integer(y as int) + ")"@),
                )
                &&& text.len() == 1 ==> gives(
                    state.type_xpath_next(keys->Ask_1, Event::Done),
                    "Typed into xpath match"@ + (" at ("@ + text::integer(x as int) + ","@
                        + text::integer(y as int) + ")"@),
                )
                &&& fails(
                    state.type_xpath_next(step->Ask_1, Event::Failed(m)),
                    ErrorView::Cdp(m@),
                )
            }
        }),
{
    reveal_strlit("");
}

/// A key for a character is that character alone: in any state of the sending, the next key that
/// is asked for is the first one that was not sent yet, and after the last one the report is
/// given.
pub proof fn lemma_key_for_character(page: PageId, chars: Seq<char>, sent: usize, report: Seq<char>)
    ensures
        sent < chars.len() ==> asks(
            crate::browser::input::TypingXpath::send(page, chars, sent, report),
            ActionView::KeyChar { page, text: seq![chars[sent as int]] },
        ),
        sent >= chars.len() ==> gives(
            crate::browser::input::TypingXpath::send(page, chars, sent, report),
            report,
        ),
{
}

} // verus!
