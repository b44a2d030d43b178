//! Input: clicks, text and keys.

use vstd::prelude::*;

use crate::browser::evaluation::Running;
use crate::browser::{BrowserManager, ManagerView};
use crate::error::{BrowserError, ErrorView};
use crate::json::{Json, JsonView};
use crate::scripts;
use crate::step::{Action, ActionView, ElementId, Event, Operation, PageId, Step, StepView};
use crate::text;

verus! {

/// How long a click may take. One that takes longer counts as done: it was sent, and the page
/// is busy with what it set off.
pub const CLICK_LIMIT_MS: u64 = 5000;

/// Clicks an element.
#[derive(Debug)]
pub enum Clicking<S> {
    /// The element is looked for.
    Finding { selector: S },
    /// It is clicked.
    Clicking,
}

impl DeepView for Clicking<String> {
    type V = Clicking<Seq<char>>;

    open spec fn deep_view(&self) -> Clicking<Seq<char>> {
        match self {
            Clicking::Finding { selector } => Clicking::Finding { selector: selector@ },
            Clicking::Clicking => Clicking::Clicking,
        }
    }
}

impl Clicking<Seq<char>> {
    /// What comes after an event.
    pub open spec fn next(self, event: Event) -> StepView<Clicking<Seq<char>>, ()> {
        match self {
            Clicking::Finding { selector } => match event.element() {
                Some(element) => StepView::Ask(
                    ActionView::ClickElement { element, limit_ms: CLICK_LIMIT_MS },
                    Clicking::Clicking,
                ),
                None => StepView::Done(Err(ErrorView::ElementNotFound(selector))),
            },
            Clicking::Clicking => StepView::Done(event.outcome()),
        }
    }
}

impl Operation for Clicking<String> {
    type Output = ();

    fn resume(self, manager: &mut BrowserManager, event: Event) -> (step: Step<Self, ()>)
        ensures
            final(manager)@ == old(manager)@,
            step.deep_view() == self.deep_view().next(event),
    {
        match self {
            Clicking::Finding { selector } => match event.into_element() {
                Some(element) => Step::Ask(
                    Action::ClickElement { element, limit_ms: CLICK_LIMIT_MS },
                    Clicking::Clicking,
                ),
                None => Step::Done(Err(BrowserError::ElementNotFound(selector))),
            },
            Clicking::Clicking => Step::Done(event.into_outcome()),
        }
    }
}

/// Types text into an element.
#[derive(Debug)]
pub enum Typing<S> {
    /// The element is looked for.
    Finding { selector: S, text: S, clear: bool },
    /// What it held is cleared.
    Clearing { element: ElementId, text: S },
    /// The text is typed.
    Typing,
}

impl DeepView for Typing<String> {
    type V = Typing<Seq<char>>;

    open spec fn deep_view(&self) -> Typing<Seq<char>> {
        match self {
            Typing::Finding { selector, text, clear } => Typing::Finding {
                selector: selector@,
                text: text@,
                clear: *clear,
            },
            Typing::Clearing { element, text } => Typing::Clearing {
                element: *element,
                text: text@,
            },
            Typing::Typing => Typing::Typing,
        }
    }
}

impl ManagerView {
    /// What comes after an event while text is typed into an element.
    pub open spec fn type_next(self, stage: Typing<Seq<char>>, event: Event) -> StepView<
        Typing<Seq<char>>,
        (),
    > {
        match stage {
            Typing::Finding { selector, text, clear } => match event.element() {
                Some(element) => match self.page() {
                    Some(page) if clear => StepView::Ask(
                        ActionView::Evaluate { page, script: scripts::clear_value(selector) },
                        Typing::Clearing { element, text },
                    ),
                    _ => StepView::Ask(ActionView::TypeText { element, text }, Typing::Typing),
                },
                None => StepView::Done(Err(ErrorView::ElementNotFound(selector))),
            },
            Typing::Clearing { element, text } => StepView::Ask(
                ActionView::TypeText { element, text },
                Typing::Typing,
            ),
            Typing::Typing => StepView::Done(event.outcome()),
        }
    }
}

impl Operation for Typing<String> {
    type Output = ();

    fn resume(self, manager: &mut BrowserManager, event: Event) -> (step: Step<Self, ()>)
        ensures
            final(manager)@ == old(manager)@,
            step.deep_view() == old(manager)@.type_next(self.deep_view(), event),
    {
        match self {
            Typing::Finding { selector, text, clear } => match event.into_element() {
                Some(element) => match manager.page() {
                    Ok(page) if clear => Step::Ask(
                        Action::Evaluate {
                            page,
                            script: scripts::clear_value_script(selector.as_str()),
                        },
                        Typing::Clearing { element, text },
                    ),
                    _ => Step::Ask(Action::TypeText { element, text }, Typing::Typing),
                },
                None => Step::Done(Err(BrowserError::ElementNotFound(selector))),
            },
            Typing::Clearing { element, text } => Step::Ask(
                Action::TypeText { element, text },
                Typing::Typing,
            ),
            Typing::Typing => Step::Done(event.into_outcome()),
        }
    }
}

/// The name of a key, by what the caller wrote in lower case; any other key goes by the name
/// that the caller gave it.
pub open spec fn key_name(lower: Seq<char>, key: Seq<char>) -> Seq<char> {
    if lower == "enter"@ || lower == "return"@ {
        "Enter"@
    } else if lower == "tab"@ {
        "Tab"@
    } else if lower == "escape"@ || lower == "esc"@ {
        "Escape"@
    } else if lower == "backspace"@ {
        "Backspace"@
    } else if lower == "delete"@ {
        "Delete"@
    } else if lower == "arrowup"@ || lower == "up"@ {
        "ArrowUp"@
    } else if lower == "arrowdown"@ || lower == "down"@ {
        "ArrowDown"@
    } else if lower == "arrowleft"@ || lower == "left"@ {
        "ArrowLeft"@
    } else if lower == "arrowright"@ || lower == "right"@ {
        "ArrowRight"@
    } else if lower == "space"@ {
        "Space"@
    } else {
        key
    }
}

/// The name of a key, where `lower` is what the caller wrote in lower case.
pub fn name_key(lower: &str, key: &str) -> (r: String)
    ensures
        r@ == key_name(lower@, key@),
{
    if text::same_text(lower, "enter") || text::same_text(lower, "return") {
        "Enter".to_owned()
    } else if text::same_text(lower, "tab") {
        "Tab".to_owned()
    } else if text::same_text(lower, "escape") || text::same_text(lower, "esc") {
        "Escape".to_owned()
    } else if text::same_text(lower, "backspace") {
        "Backspace".to_owned()
    } else if text::same_text(lower, "delete") {
        "Delete".to_owned()
    } else if text::same_text(lower, "arrowup") || text::same_text(lower, "up") {
        "ArrowUp".to_owned()
    } else if text::same_text(lower, "arrowdown") || text::same_text(lower, "down") {
        "ArrowDown".to_owned()
    } else if text::same_text(lower, "arrowleft") || text::same_text(lower, "left") {
        "ArrowLeft".to_owned()
    } else if text::same_text(lower, "arrowright") || text::same_text(lower, "right") {
        "ArrowRight".to_owned()
    } else if text::same_text(lower, "space") {
        "Space".to_owned()
    } else {
        key.to_owned()
    }
}

/// Presses a key.
#[derive(Debug)]
pub enum Pressing<S> {
    /// The key goes down.
    Down { page: PageId, key: S },
    /// The key goes up.
    Up,
}

impl DeepView for Pressing<String> {
    type V = Pressing<Seq<char>>;

    open spec fn deep_view(&self) -> Pressing<Seq<char>> {
        match self {
            Pressing::Down { page, key } => Pressing::Down { page: *page, key: key@ },
            Pressing::Up => Pressing::Up,
        }
    }
}

impl Pressing<Seq<char>> {
    /// What comes after an event.
    pub open spec fn next(self, event: Event) -> StepView<Pressing<Seq<char>>, ()> {
        match self {
            Pressing::Down { page, key } => match event.outcome() {
                Ok(_) => StepView::Ask(ActionView::KeyUp { page, key }, Pressing::Up),
                Err(e) => StepView::Done(Err(e)),
            },
            Pressing::Up => StepView::<Pressing<Seq<char>>, ()>::Done(event.outcome()),
        }
    }
}

impl Operation for Pressing<String> {
    type Output = ();

    fn resume(self, manager: &mut BrowserManager, event: Event) -> (step: Step<Self, ()>)
        ensures
            final(manager)@ == old(manager)@,
            step.deep_view() == self.deep_view().next(event),
    {
        match self {
            Pressing::Down { page, key } => match event.into_outcome() {
                Ok(_) => Step::Ask(Action::KeyUp { page, key }, Pressing::Up),
                Err(e) => Step::Done(Err(e)),
            },
            Pressing::Up => Step::Done(event.into_outcome()),
        }
    }
}

/// Waits for what a script found under an XPath expression.
#[derive(Debug)]
pub struct Resolving<S> {
    pub xpath: S,
}

impl DeepView for Resolving<String> {
    type V = Resolving<Seq<char>>;

    open spec fn deep_view(&self) -> Resolving<Seq<char>> {
        Resolving { xpath: self.xpath@ }
    }
}

/// What was found under an XPath expression; `null` stands for nothing.
pub open spec fn resolved(xpath: Seq<char>, event: Event) -> Result<JsonView, ErrorView> {
    match event.value() {
        Ok(JsonView::Null) => Err(ErrorView::ElementNotFound("xpath: "@ + xpath)),
        Ok(found) => Ok(found),
        Err(e) => Err(e),
    }
}

/// What was found under an XPath expression.
pub fn read_resolved(xpath: &str, event: Event) -> (r: Result<Json, BrowserError>)
    ensures
        crate::error::result_view(r) == resolved(xpath@, event),
{
    match event.into_value() {
        Ok(found) => if found.is_null() {
            Err(BrowserError::ElementNotFound("xpath: ".to_owned().concat(xpath)))
        } else {
            Ok(found)
        },
        Err(e) => Err(e),
    }
}

impl Resolving<Seq<char>> {
    /// What comes after an event.
    pub open spec fn next(self, event: Event) -> StepView<Resolving<Seq<char>>, JsonView> {
        StepView::<Resolving<Seq<char>>, JsonView>::Done(
            resolved(self.xpath, event),
        )
    }
}

impl Operation for Resolving<String> {
    type Output = Json;

    fn resume(self, manager: &mut BrowserManager, event: Event) -> (step: Step<Self, Json>)
        ensures
            final(manager)@ == old(manager)@,
            step.deep_view() == self.deep_view().next(event),
    {
        Step::Done(read_resolved(self.xpath.as_str(), event))
    }
}

/// The middle of a found element, by a member of what was found; 0 where it is no integer.
pub open spec fn coordinate(found: JsonView, name: Seq<char>) -> i32 {
    found.i64_or_zero(name) as i32
}

/// The middle of a found element.
fn read_coordinate(found: &Json, name: &str) -> (r: i32)
    ensures
        r == coordinate(found.deep_view(), name@),
{
    let n: i64 = found.i64_or_zero(name);
    #[verifier::truncate]
    (n as i32)
}

/// Where something happened, as reports say it.
pub open spec fn at_point(x: i32, y: i32) -> Seq<char> {
    " at ("@ + text::integer(x as int) + ","@ + text::integer(y as int) + ")"@
}

/// Writes where something happened.
fn push_point(out: &mut String, x: i32, y: i32)
    ensures
        final(out)@ == old(out)@ + at_point(x, y),
{
    let ghost start: Seq<char> = out@;
    out.append(" at (");
    text::push_integer(out, x as i64);
    out.append(",");
    text::push_integer(out, y as i64);
    out.append(")");
    assert(out@ =~= start + at_point(x, y));
}

/// What is reported of a click on an element with that text, made through a selector.
pub open spec fn clicked_via(label: Seq<char>, selector: Seq<char>) -> Seq<char> {
    "Clicked '"@ + label + "' via "@ + selector
}

/// What is reported of a click on an element with that text, made at a point.
pub open spec fn clicked_at(label: Seq<char>, x: i32, y: i32) -> Seq<char> {
    "Clicked '"@ + label + "'"@ + at_point(x, y)
}

/// What is reported of text typed through a selector.
pub open spec fn typed_via(selector: Seq<char>) -> Seq<char> {
    "Typed into xpath match via "@ + selector
}

/// What is reported of text typed at a point.
pub open spec fn typed_at(x: i32, y: i32) -> Seq<char> {
    "Typed into xpath match"@ + at_point(x, y)
}

fn clicked_via_text(label: &str, selector: &str) -> (r: String)
    ensures
        r@ == clicked_via(label@, selector@),
{
    "Clicked '".to_owned().concat(label).concat("' via ").concat(selector)
}

fn clicked_at_text(label: &str, x: i32, y: i32) -> (r: String)
    ensures
        r@ == clicked_at(label@, x, y),
{
    let mut r: String = "Clicked '".to_owned().concat(label).concat("'");
    push_point(&mut r, x, y);
    r
}

fn typed_via_text(selector: &str) -> (r: String)
    ensures
        r@ == typed_via(selector@),
{
    "Typed into xpath match via ".to_owned().concat(selector)
}

fn typed_at_text(x: i32, y: i32) -> (r: String)
    ensures
        r@ == typed_at(x, y),
{
    let mut r: String = "Typed into xpath match".to_owned();
    push_point(&mut r, x, y);
    r
}

/// Clicks an element found under an XPath expression: through its selector where it has one,
/// else at its middle.
#[derive(Debug)]
pub enum ClickingXpath<S> {
    /// The element is looked for.
    Resolving { xpath: S },
    /// It is clicked through its selector.
    BySelector { inner: Clicking<S>, report: S },
    /// It is clicked at its middle.
    AtPoint { report: S },
}

impl DeepView for ClickingXpath<String> {
    type V = ClickingXpath<Seq<char>>;

    open spec fn deep_view(&self) -> ClickingXpath<Seq<char>> {
        match self {
            ClickingXpath::Resolving { xpath } => ClickingXpath::Resolving { xpath: xpath@ },
            ClickingXpath::BySelector { inner, report } => ClickingXpath::BySelector {
                inner: inner.deep_view(),
                report: report@,
            },
            ClickingXpath::AtPoint { report } => ClickingXpath::AtPoint { report: report@ },
        }
    }
}

impl<S> ClickingXpath<S> {
    /// Puts a step of the click through a selector into the whole; the end of it is reported.
    pub open spec fn wrap(step: StepView<Clicking<S>, ()>, report: S) -> StepView<
        ClickingXpath<S>,
        S,
    > {
        match step {
            StepView::Ask(action, inner) => StepView::Ask(
                action,
                ClickingXpath::BySelector { inner, report },
            ),
            StepView::Done(Ok(_)) => StepView::Done(Ok(report)),
            StepView::Done(Err(e)) => StepView::Done(Err(e)),
        }
    }
}

impl ManagerView {
    /// The first step of a click on an element.
    pub open spec fn click_selector(self, selector: Seq<char>) -> StepView<
        Clicking<Seq<char>>,
        (),
    > {
        self.find(selector, Clicking::Finding { selector })
    }

    /// The first step of an operation that clicks at a point and goes on with `next`.
    pub open spec fn click_point<P, T>(self, x: i32, y: i32, next: P) -> StepView<P, T> {
        self.on_page(
            |page: PageId|
                ActionView::EvaluateWithin {
                    page,
                    script: scripts::click_at(x, y),
                    limit_ms: CLICK_LIMIT_MS,
                },
            next,
        )
    }

    /// The click on an element that was found under an XPath expression.
    pub open spec fn click_found(self, found: JsonView) -> StepView<
        ClickingXpath<Seq<char>>,
        Seq<char>,
    > {
        let selector: Seq<char> = found.str_or("selector"@, ""@);
        let label: Seq<char> = found.str_or("text"@, "?"@);
        let x: i32 = coordinate(found, "cx"@);
        let y: i32 = coordinate(found, "cy"@);
        if selector.len() > 0 {
            ClickingXpath::wrap(self.click_selector(selector), clicked_via(label, selector))
        } else {
            self.click_point(x, y, ClickingXpath::AtPoint { report: clicked_at(label, x, y) })
        }
    }
}

impl ManagerView {
    /// What comes after an event while an element found under an XPath expression is clicked.
    pub open spec fn click_xpath_next(
        self,
        stage: ClickingXpath<Seq<char>>,
        event: Event,
    ) -> StepView<ClickingXpath<Seq<char>>, Seq<char>> {
        match stage {
            ClickingXpath::Resolving { xpath } => match resolved(xpath, event) {
                Ok(found) => self.click_found(found),
                Err(e) => StepView::Done(Err(e)),
            },
            ClickingXpath::BySelector { inner, report } => ClickingXpath::wrap(
                inner.next(event),
                report,
            ),
            ClickingXpath::AtPoint { report } => match event.outcome() {
                Ok(_) => StepView::<ClickingXpath<Seq<char>>, Seq<char>>::Done(Ok(report)),
                Err(e) => StepView::Done(Err(e)),
            },
        }
    }
}

impl Operation for ClickingXpath<String> {
    type Output = String;

    fn resume(self, manager: &mut BrowserManager, event: Event) -> (step: Step<Self, String>)
        ensures
            final(manager)@ == old(manager)@,
            step.deep_view() == old(manager)@.click_xpath_next(self.deep_view(), event),
    {
        match self {
            ClickingXpath::Resolving { xpath } => match read_resolved(xpath.as_str(), event) {
                Ok(found) => manager.click_found(&found),
                Err(e) => Step::Done(Err(e)),
            },
            ClickingXpath::BySelector { inner, report } => match inner.resume(manager, event) {
                Step::Ask(action, inner) => Step::Ask(
                    action,
                    ClickingXpath::BySelector { inner, report },
                ),
                Step::Done(Ok(_)) => Step::Done(Ok(report)),
                Step::Done(Err(e)) => Step::Done(Err(e)),
            },
            ClickingXpath::AtPoint { report } => match event.into_outcome() {
                Ok(_) => Step::Done(Ok(report)),
                Err(e) => Step::Done(Err(e)),
            },
        }
    }
}

/// Types text into an element found under an XPath expression: through its selector where it
/// has one, else by a click at its middle and one key for each character.
#[derive(Debug)]
pub enum TypingXpath<S, L> {
    /// The element is looked for.
    Resolving { xpath: S, text: S, clear: bool },
    /// The text is typed through its selector.
    BySelector { inner: Typing<S>, report: S },
    /// It gets the focus by a click.
    Clicking { chars: L, clear: bool, report: S },
    /// What it held is cleared.
    Clearing { chars: L, report: S },
    /// The characters are sent; `sent` of them are.
    Sending { page: PageId, chars: L, sent: usize, report: S },
}

impl DeepView for TypingXpath<String, Vec<char>> {
    type V = TypingXpath<Seq<char>, Seq<char>>;

    open spec fn deep_view(&self) -> TypingXpath<Seq<char>, Seq<char>> {
        match self {
            TypingXpath::Resolving { xpath, text, clear } => TypingXpath::Resolving {
                xpath: xpath@,
                text: text@,
                clear: *clear,
            },
            TypingXpath::BySelector { inner, report } => TypingXpath::BySelector {
                inner: inner.deep_view(),
                report: report@,
            },
            TypingXpath::Clicking { chars, clear, report } => TypingXpath::Clicking {
                chars: chars@,
                clear: *clear,
                report: report@,
            },
            TypingXpath::Clearing { chars, report } => TypingXpath::Clearing {
                chars: chars@,
                report: report@,
            },
            TypingXpath::Sending { page, chars, sent, report } => TypingXpath::Sending {
                page: *page,
                chars: chars@,
                sent: *sent,
                report: report@,
            },
        }
    }
}

impl TypingXpath<Seq<char>, Seq<char>> {
    /// Puts a step of the typing through a selector into the whole; the end of it is reported.
    pub open spec fn wrap(step: StepView<Typing<Seq<char>>, ()>, report: Seq<char>) -> StepView<
        TypingXpath<Seq<char>, Seq<char>>,
        Seq<char>,
    > {
        match step {
            StepView::Ask(action, inner) => StepView::Ask(
                action,
                TypingXpath::BySelector { inner, report },
            ),
            StepView::Done(Ok(_)) => StepView::Done(Ok(report)),
            StepView::Done(Err(e)) => StepView::Done(Err(e)),
        }
    }

    /// The next character to send, where `sent` of them are sent; after the last one the end
    /// is reported.
    pub open spec fn send(
        page: PageId,
        chars: Seq<char>,
        sent: usize,
        report: Seq<char>,
    ) -> StepView<TypingXpath<Seq<char>, Seq<char>>, Seq<char>> {
        if sent < chars.len() {
            StepView::Ask(
                ActionView::KeyChar { page, text: seq![chars[sent as int]] },
                TypingXpath::Sending { page, chars, sent: (sent + 1) as usize, report },
            )
        } else {
            StepView::Done(Ok(report))
        }
    }
}

impl ManagerView {
    /// The first step of typing into an element.
    pub open spec fn type_text(self, selector: Seq<char>, text: Seq<char>, clear: bool) -> StepView<
        Typing<Seq<char>>,
        (),
    > {
        self.find(selector, Typing::Finding { selector, text, clear })
    }

    /// The typing into an element that was found under an XPath expression.
    pub open spec fn type_found(self, found: JsonView, text: Seq<char>, clear: bool) -> StepView<
        TypingXpath<Seq<char>, Seq<char>>,
        Seq<char>,
    > {
        let selector: Seq<char> = found.str_or("selector"@, ""@);
        let x: i32 = coordinate(found, "cx"@);
        let y: i32 = coordinate(found, "cy"@);
        if selector.len() > 0 {
            TypingXpath::wrap(self.type_text(selector, text, clear), typed_via(selector))
        } else {
            self.click_point(
                x,
                y,
                TypingXpath::Clicking { chars: text, clear, report: typed_at(x, y) },
            )
        }
    }

    /// The first character to send.
    pub open spec fn send_first(self, chars: Seq<char>, report: Seq<char>) -> StepView<
        TypingXpath<Seq<char>, Seq<char>>,
        Seq<char>,
    > {
        match self.page() {
            Some(page) => TypingXpath::send(page, chars, 0, report),
            None => StepView::Done(Err(ErrorView::NoPage)),
        }
    }

    /// What comes after an event while text is typed into an element found under an XPath
    /// expression.
    pub open spec fn type_xpath_next(
        self,
        stage: TypingXpath<Seq<char>, Seq<char>>,
        event: Event,
    ) -> StepView<TypingXpath<Seq<char>, Seq<char>>, Seq<char>> {
        match stage {
            TypingXpath::Resolving { xpath, text, clear } => match resolved(xpath, event) {
                Ok(found) => self.type_found(found, text, clear),
                Err(e) => StepView::Done(Err(e)),
            },
            TypingXpath::BySelector { inner, report } => TypingXpath::wrap(
                self.type_next(inner, event),
                report,
            ),
            TypingXpath::Clicking { chars, clear, report } => match event.outcome() {
                Ok(_) => match self.page() {
                    Some(page) if clear => StepView::Ask(
                        ActionView::Evaluate { page, script: scripts::CLEAR_ACTIVE@ },
                        TypingXpath::Clearing { chars, report },
                    ),
                    _ => self.send_first(chars, report),
                },
                Err(e) => StepView::Done(Err(e)),
            },
            TypingXpath::Clearing { chars, report } => self.send_first(chars, report),
            TypingXpath::Sending { page, chars, sent, report } => match event.outcome() {
                Ok(_) => TypingXpath::send(page, chars, sent, report),
                Err(e) => StepView::Done(Err(e)),
            },
        }
    }
}

/// The next character to send; after the last one the end is reported.
fn send_next(page: PageId, chars: Vec<char>, sent: usize, report: String) -> (step: Step<
    TypingXpath<String, Vec<char>>,
    String,
>)
    ensures
        step.deep_view() == TypingXpath::send(page, chars@, sent, report@),
{
    if sent < chars.len() {
        let c: char = chars[sent];
        let text: String = text::char_text(c);
        assert(text@ =~= seq![c]);
        Step::Ask(
            Action::KeyChar { page, text },
            TypingXpath::Sending { page, chars, sent: sent + 1, report },
        )
    } else {
        Step::Done(Ok(report))
    }
}

impl Operation for TypingXpath<String, Vec<char>> {
    type Output = String;

    fn resume(self, manager: &mut BrowserManager, event: Event) -> (step: Step<Self, String>)
        ensures
            final(manager)@ == old(manager)@,
            step.deep_view() == old(manager)@.type_xpath_next(self.deep_view(), event),
    {
        match self {
            TypingXpath::Resolving { xpath, text, clear } => match read_resolved(
                xpath.as_str(),
                event,
            ) {
                Ok(found) => manager.type_found(&found, text.as_str(), clear),
                Err(e) => Step::Done(Err(e)),
            },
            TypingXpath::BySelector { inner, report } => match inner.resume(manager, event) {
                Step::Ask(action, inner) => Step::Ask(
                    action,
                    TypingXpath::BySelector { inner, report },
                ),
                Step::Done(Ok(_)) => Step::Done(Ok(report)),
                Step::Done(Err(e)) => Step::Done(Err(e)),
            },
            TypingXpath::Clicking { chars, clear, report } => match event.into_outcome() {
                Ok(_) => match manager.page() {
                    Ok(page) if clear => Step::Ask(
                        Action::Evaluate { page, script: scripts::CLEAR_ACTIVE.to_owned() },
                        TypingXpath::Clearing { chars, report },
                    ),
                    _ => manager.send_first(chars, report),
                },
                Err(e) => Step::Done(Err(e)),
            },
            TypingXpath::Clearing { chars, report } => manager.send_first(chars, report),
            TypingXpath::Sending { page, chars, sent, report } => match event.into_outcome() {
                Ok(_) => send_next(page, chars, sent, report),
                Err(e) => Step::Done(Err(e)),
            },
        }
    }
}

impl ManagerView {
    /// The first step of a click at a point.
    pub open spec fn click_coords(self, x: i32, y: i32) -> StepView<Running, ()> {
        self.click_point::<Running, ()>(x, y, Running {  })
    }
}

impl ManagerView {
    /// The first step of pressing a key.
    pub open spec fn press_key(self, key: Seq<char>) -> StepView<Pressing<Seq<char>>, ()> {
        match self.page() {
            Some(page) => {
                let name: Seq<char> = key_name(text::lowercase(key), key);
                StepView::Ask(
                    ActionView::KeyDown { page, key: name },
                    Pressing::Down { page, key: name },
                )
            },
            None => StepView::<Pressing<Seq<char>>, ()>::Done(Err(ErrorView::NoPage)),
        }
    }
}

impl ManagerView {
    /// The first step of looking under an XPath expression.
    pub open spec fn resolve_xpath(self, xpath: Seq<char>) -> StepView<Resolving<Seq<char>>, JsonView> {
        self.ask::<Resolving<Seq<char>>, JsonView>(
            scripts::locate_xpath(xpath),
            Resolving { xpath: xpath },
        )
    }
}

impl ManagerView {
    /// The first step of a click under an XPath expression.
    pub open spec fn click_xpath(self, xpath: Seq<char>) -> StepView<ClickingXpath<Seq<char>>, Seq<char>> {
        self.ask::<ClickingXpath<Seq<char>>, Seq<char>>(
            scripts::locate_xpath(xpath),
            ClickingXpath::Resolving { xpath: xpath },
        )
    }
}

impl ManagerView {
    /// The first step of typing under an XPath expression.
    pub open spec fn type_xpath(self, xpath: Seq<char>, text: Seq<char>, clear: bool) -> StepView<TypingXpath<Seq<char>, Seq<char>>, Seq<char>> {
        self.ask::<TypingXpath<Seq<char>, Seq<char>>, Seq<char>>(
            scripts::locate_xpath(xpath),
            TypingXpath::Resolving { xpath: xpath, text: text, clear },
        )
    }
}

impl BrowserManager {
    /// Clicks an element.
    pub fn click_selector(&self, selector: &str) -> (step: Step<Clicking<String>, ()>)
        ensures
            step.deep_view() == self@.click_selector(selector@),
    {
        self.find(selector, Clicking::Finding { selector: selector.to_owned() })
    }

    /// Clicks at a point and goes on with `next`.
    fn click_point<P: DeepView, T: DeepView>(&self, x: i32, y: i32, next: P) -> (step: Step<P, T>)
        ensures
            step.deep_view() == self@.click_point::<P::V, T::V>(x, y, next.deep_view()),
    {
        match self.page() {
            Ok(page) => Step::Ask(
                Action::EvaluateWithin {
                    page,
                    script: scripts::click_at_script(x, y),
                    limit_ms: CLICK_LIMIT_MS,
                },
                next,
            ),
            Err(e) => Step::Done(Err(e)),
        }
    }

    /// Clicks at a point.
    pub fn click_coords(&self, x: i32, y: i32) -> (step: Step<Running, ()>)
        ensures
            step.deep_view() == self@.click_coords(x, y),
    {
        self.click_point(x, y, Running {  })
    }

    /// Types text into an element, after clearing what it held where that is asked for.
    pub fn type_text(&self, selector: &str, text: &str, clear: bool) -> (step: Step<
        Typing<String>,
        (),
    >)
        ensures
            step.deep_view() == self@.type_text(selector@, text@, clear),
    {
        self.find(
            selector,
            Typing::Finding { selector: selector.to_owned(), text: text.to_owned(), clear },
        )
    }

    /// Presses a key and lets it go.
    pub fn press_key(&self, key: &str) -> (step: Step<Pressing<String>, ()>)
        ensures
            step.deep_view() == self@.press_key(key@),
    {
        match self.page() {
            Ok(page) => {
                let lower: String = text::to_lowercase(key);
                let name: String = name_key(lower.as_str(), key);
                let sent: String = name.clone();
                Step::Ask(Action::KeyDown { page, key: sent }, Pressing::Down { page, key: name })
            },
            Err(e) => Step::Done(Err(e)),
        }
    }

    /// Asks what is found under an XPath expression.
    pub fn resolve_xpath(&self, xpath: &str) -> (step: Step<Resolving<String>, Json>)
        ensures
            step.deep_view() == self@.resolve_xpath(xpath@),
    {
        self.ask(scripts::locate_xpath_script(xpath), Resolving { xpath: xpath.to_owned() })
    }

    /// Clicks the element found under an XPath expression; the result says how.
    pub fn click_xpath(&self, xpath: &str) -> (step: Step<ClickingXpath<String>, String>)
        ensures
            step.deep_view() == self@.click_xpath(xpath@),
    {
        self.ask(
            scripts::locate_xpath_script(xpath),
            ClickingXpath::Resolving { xpath: xpath.to_owned() },
        )
    }

    /// Clicks an element that was found under an XPath expression.
    pub fn click_found(&self, found: &Json) -> (step: Step<ClickingXpath<String>, String>)
        ensures
            step.deep_view() == self@.click_found(found.deep_view()),
    {
        let selector: String = found.str_or("selector", "");
        let label: String = found.str_or("text", "?");
        if selector.as_str().unicode_len() > 0 {
            let report: String = clicked_via_text(label.as_str(), selector.as_str());
            match self.click_selector(selector.as_str()) {
                Step::Ask(action, inner) => Step::Ask(
                    action,
                    ClickingXpath::BySelector { inner, report },
                ),
                Step::Done(Ok(_)) => Step::Done(Ok(report)),
                Step::Done(Err(e)) => Step::Done(Err(e)),
            }
        } else {
            let x: i32 = read_coordinate(found, "cx");
            let y: i32 = read_coordinate(found, "cy");
            let report: String = clicked_at_text(label.as_str(), x, y);
            self.click_point(x, y, ClickingXpath::AtPoint { report })
        }
    }

    /// Types text into the element found under an XPath expression; the result says how.
    pub fn type_xpath(&self, xpath: &str, text: &str, clear: bool) -> (step: Step<
        TypingXpath<String, Vec<char>>,
        String,
    >)
        ensures
            step.deep_view() == self@.type_xpath(xpath@, text@, clear),
    {
        self.ask(
            scripts::locate_xpath_script(xpath),
            TypingXpath::Resolving { xpath: xpath.to_owned(), text: text.to_owned(), clear },
        )
    }

    /// Types text into an element that was found under an XPath expression.
    pub fn type_found(&self, found: &Json, text: &str, clear: bool) -> (step: Step<
        TypingXpath<String, Vec<char>>,
        String,
    >)
        ensures
            step.deep_view() == self@.type_found(found.deep_view(), text@, clear),
    {
        let selector: String = found.str_or("selector", "");
        if selector.as_str().unicode_len() > 0 {
            let report: String = typed_via_text(selector.as_str());
            match self.type_text(selector.as_str(), text, clear) {
                Step::Ask(action, inner) => Step::Ask(
                    action,
                    TypingXpath::BySelector { inner, report },
                ),
                Step::Done(Ok(_)) => Step::Done(Ok(report)),
                Step::Done(Err(e)) => Step::Done(Err(e)),
            }
        } else {
            let x: i32 = read_coordinate(found, "cx");
            let y: i32 = read_coordinate(found, "cy");
            let report: String = typed_at_text(x, y);
            self.click_point(
                x,
                y,
                TypingXpath::Clicking { chars: text::chars_of(text), clear, report },
            )
        }
    }

    fn send_first(&self, chars: Vec<char>, report: String) -> (step: Step<
        TypingXpath<String, Vec<char>>,
        String,
    >)
        ensures
            step.deep_view() == self@.send_first(chars@, report@),
    {
        match self.page() {
            Ok(page) => send_next(page, chars, 0, report),
            Err(e) => Step::Done(Err(e)),
        }
    }
}

} // verus!
