//! Scripts: operations that run one script on the active page.

use vstd::prelude::*;

use crate::browser::{BrowserManager, ManagerView};
use crate::error::{BrowserError, ErrorView};
use crate::json;
use crate::json::{Json, JsonView};
use crate::scripts;
use crate::step::{Action, ActionView, Event, Operation, Step, StepView};
use crate::text;

verus! {

/// Waits for the value of a script.
#[derive(Debug)]
pub struct Evaluating {}

impl DeepView for Evaluating {
    type V = Evaluating;

    open spec fn deep_view(&self) -> Evaluating {
        *self
    }
}

/// Waits for a script whose value is of no interest.
#[derive(Debug)]
pub struct Running {}

impl DeepView for Running {
    type V = Running;

    open spec fn deep_view(&self) -> Running {
        *self
    }
}

impl ManagerView {
    /// The first step of an operation that runs a script and goes on with `next`.
    pub open spec fn ask<P, T>(self, script: Seq<char>, next: P) -> StepView<P, T> {
        match self.page() {
            Some(page) => StepView::Ask(ActionView::Evaluate { page, script }, next),
            None => StepView::Done(Err(ErrorView::NoPage)),
        }
    }

    /// The first step of an operation that returns the value of a script.
    pub open spec fn evaluate(self, script: Seq<char>) -> StepView<Evaluating, JsonView> {
        self.ask(script, Evaluating {  })
    }

    /// The first step of an operation that runs a script.
    pub open spec fn run(self, script: Seq<char>) -> StepView<Running, ()> {
        self.ask(script, Running {  })
    }
}

impl Evaluating {
    /// What comes after an event.
    pub open spec fn next(self, event: Event) -> StepView<Evaluating, JsonView> {
        StepView::<Evaluating, JsonView>::Done(event.value())
    }
}

impl Operation for Evaluating {
    type Output = Json;

    fn resume(self, manager: &mut BrowserManager, event: Event) -> (step: Step<Self, Json>)
        ensures
            final(manager)@ == old(manager)@,
            step.deep_view() == self.next(event),
    {
        Step::Done(event.into_value())
    }
}

impl Running {
    /// What comes after an event.
    pub open spec fn next(self, event: Event) -> StepView<Running, ()> {
        StepView::<Running, ()>::Done(event.outcome())
    }
}

impl Operation for Running {
    type Output = ();

    fn resume(self, manager: &mut BrowserManager, event: Event) -> (step: Step<Self, ()>)
        ensures
            final(manager)@ == old(manager)@,
            step.deep_view() == self.next(event),
    {
        Step::Done(event.into_outcome())
    }
}

impl BrowserManager {
    /// Runs a script on the active page and goes on with `next`.
    pub(crate) fn ask<P: DeepView, T: DeepView>(&self, script: String, next: P) -> (step: Step<
        P,
        T,
    >)
        ensures
            step.deep_view() == self@.ask::<P::V, T::V>(script@, next.deep_view()),
    {
        match self.page() {
            Ok(page) => Step::Ask(Action::Evaluate { page, script }, next),
            Err(e) => Step::Done(Err(e)),
        }
    }

    /// Runs a script on the active page and returns its value.
    pub fn evaluate(&self, script: &str) -> (step: Step<Evaluating, Json>)
        ensures
            step.deep_view() == self@.evaluate(script@),
    {
        self.ask(script.to_owned(), Evaluating {  })
    }

    /// Runs a script on the active page.
    pub(crate) fn run(&self, script: String) -> (step: Step<Running, ()>)
        ensures
            step.deep_view() == self@.run(script@),
    {
        self.ask(script, Running {  })
    }
}

/// Runs a script and gives the page time to settle.
#[derive(Debug)]
pub enum Settling {
    /// The script runs.
    Running { ms: u64 },
    /// The page settles.
    Sleeping,
}

impl DeepView for Settling {
    type V = Settling;

    open spec fn deep_view(&self) -> Settling {
        *self
    }
}

impl Settling {
    /// What comes after an event.
    pub open spec fn next(self, event: Event) -> StepView<Settling, ()> {
        match self {
            Settling::Running { ms } => match event.outcome() {
                Ok(_) => StepView::Ask(ActionView::Sleep { ms }, Settling::Sleeping),
                Err(e) => StepView::Done(Err(e)),
            },
            Settling::Sleeping => StepView::<Settling, ()>::Done(Ok(())),
        }
    }
}

impl Operation for Settling {
    type Output = ();

    fn resume(self, manager: &mut BrowserManager, event: Event) -> (step: Step<Self, ()>)
        ensures
            final(manager)@ == old(manager)@,
            step.deep_view() == self.next(event),
    {
        match self {
            Settling::Running { ms } => match event.into_outcome() {
                Ok(_) => Step::Ask(Action::Sleep { ms }, Settling::Sleeping),
                Err(e) => Step::Done(Err(e)),
            },
            Settling::Sleeping => Step::Done(Ok(())),
        }
    }
}

/// Waits for a script that returns an array.
#[derive(Debug)]
pub struct Listing {}

impl DeepView for Listing {
    type V = Listing;

    open spec fn deep_view(&self) -> Listing {
        *self
    }
}

/// The items of an array; none for any other value.
pub open spec fn items_of(value: JsonView) -> Seq<JsonView> {
    match value {
        JsonView::Array(items) => items,
        _ => seq![],
    }
}

/// The items of an array; none for any other value.
pub(crate) fn into_items(value: Json) -> (r: Vec<Json>)
    ensures
        r.deep_view() == items_of(value.deep_view()),
{
    match value.into_array() {
        Some(items) => items,
        None => json::no_items(),
    }
}

impl Listing {
    /// What comes after an event.
    pub open spec fn next(self, event: Event) -> StepView<Listing, Seq<JsonView>> {
        StepView::<Listing, Seq<JsonView>>::Done(
            match event.value() {
                Ok(value) => Ok(items_of(value)),
                Err(e) => Err(e),
            },
        )
    }
}

impl Operation for Listing {
    type Output = Vec<Json>;

    fn resume(self, manager: &mut BrowserManager, event: Event) -> (step: Step<Self, Vec<Json>>)
        ensures
            final(manager)@ == old(manager)@,
            step.deep_view() == self.next(event),
    {
        match event.into_value() {
            Ok(value) => Step::Done(Ok(into_items(value))),
            Err(e) => Step::Done(Err(e)),
        }
    }
}

/// Waits for the address of the page.
#[derive(Debug)]
pub struct ReadingAddress {}

impl DeepView for ReadingAddress {
    type V = ReadingAddress;

    open spec fn deep_view(&self) -> ReadingAddress {
        *self
    }
}

impl ReadingAddress {
    /// What comes after an event.
    pub open spec fn next(self, event: Event) -> StepView<ReadingAddress, Seq<char>> {
        StepView::<ReadingAddress, Seq<char>>::Done(
            match event.value() {
                Ok(JsonView::Text(address)) => Ok(address),
                Ok(_) => Err(ErrorView::Cdp("No URL"@)),
                Err(e) => Err(e),
            },
        )
    }
}

impl Operation for ReadingAddress {
    type Output = String;

    fn resume(self, manager: &mut BrowserManager, event: Event) -> (step: Step<Self, String>)
        ensures
            final(manager)@ == old(manager)@,
            step.deep_view() == self.next(event),
    {
        match event.into_value() {
            Ok(Json::Text(address)) => Step::Done(Ok(address)),
            Ok(_) => Step::Done(Err(BrowserError::Cdp("No URL".to_owned()))),
            Err(e) => Step::Done(Err(e)),
        }
    }
}

/// Waits for the rectangle of an element.
#[derive(Debug)]
pub struct Measuring<S> {
    pub selector: S,
}

impl DeepView for Measuring<String> {
    type V = Measuring<Seq<char>>;

    open spec fn deep_view(&self) -> Measuring<Seq<char>> {
        Measuring { selector: self.selector@ }
    }
}

/// The four numbers of a rectangle, where the value is an array of four.
pub open spec fn rectangle(value: JsonView, selector: Seq<char>) -> Result<
    Seq<JsonView>,
    ErrorView,
> {
    match value {
        JsonView::Array(items) => if items.len() == 4 {
            Ok(items)
        } else {
            Err(ErrorView::ElementNotFound(selector))
        },
        _ => Err(ErrorView::ElementNotFound(selector)),
    }
}

impl Measuring<Seq<char>> {
    /// What comes after an event.
    pub open spec fn next(self, event: Event) -> StepView<Measuring<Seq<char>>, Seq<JsonView>> {
        StepView::<Measuring<Seq<char>>, Seq<JsonView>>::Done(
            match event.value() {
                Ok(value) => rectangle(value, self.selector),
                Err(e) => Err(e),
            },
        )
    }
}

impl Operation for Measuring<String> {
    type Output = Vec<Json>;

    fn resume(self, manager: &mut BrowserManager, event: Event) -> (step: Step<Self, Vec<Json>>)
        ensures
            final(manager)@ == old(manager)@,
            step.deep_view() == self.deep_view().next(event),
    {
        match event.into_value() {
            Ok(value) => match value.into_array() {
                Some(items) => {
                    assert(items.deep_view().len() == items@.len());
                    if items.len() == 4 {
                        Step::Done(Ok(items))
                    } else {
                        Step::Done(Err(BrowserError::ElementNotFound(self.selector)))
                    }
                },
                None => Step::Done(Err(BrowserError::ElementNotFound(self.selector))),
            },
            Err(e) => Step::Done(Err(e)),
        }
    }
}

/// Fills the fields of a form, one after the other.
#[derive(Debug)]
pub struct FillingForm<L> {
    /// The scripts that are still to be run.
    pub rest: L,
}

impl DeepView for FillingForm<Vec<String>> {
    type V = FillingForm<Seq<Seq<char>>>;

    open spec fn deep_view(&self) -> FillingForm<Seq<Seq<char>>> {
        FillingForm { rest: self.rest.deep_view() }
    }
}

/// The scripts that fill a form: one for every member of the data that is a string.
pub open spec fn fill_scripts(form: Seq<char>, fields: Seq<(Seq<char>, JsonView)>) -> Seq<Seq<char>>
    decreases fields.len(),
{
    if fields.len() == 0 {
        seq![]
    } else {
        let before: Seq<Seq<char>> = fill_scripts(form, fields.drop_last());
        match fields.last().1 {
            JsonView::Text(value) => before.push(
                scripts::fill_field(form, fields.last().0, value),
            ),
            _ => before,
        }
    }
}

/// The scripts that fill a form with data; none where the data is no object.
pub open spec fn form_scripts(form: Seq<char>, data: JsonView) -> Seq<Seq<char>> {
    match data {
        JsonView::Object(fields) => fill_scripts(form, fields),
        _ => seq![],
    }
}

/// The scripts that fill a form with data; none where the data is no object.
pub fn form_script_list(form: &str, data: &Json) -> (r: Vec<String>)
    ensures
        r.deep_view() == form_scripts(form@, data.deep_view()),
{
    let mut r: Vec<String> = Vec::new();
    assert(r.deep_view() =~= Seq::<Seq<char>>::empty());
    match data {
        Json::Object(fields) => {
            let ghost views: Seq<(Seq<char>, JsonView)> = json::members(fields@);
            proof {
                json::lemma_object_view(*fields);
            }
            let mut i: usize = 0;
            while i < fields.len()
                invariant
                    i <= fields@.len(),
                    views == json::members(fields@),
                    r.deep_view() == fill_scripts(form@, views.take(i as int)),
                decreases fields@.len() - i,
            {
                let field: &(String, Json) = &fields[i];
                proof {
                    assert(views.take(i + 1).drop_last() =~= views.take(i as int));
                    assert(views.take(i + 1).last() == (field.0@, field.1.deep_view()));
                }
                match &field.1 {
                    Json::Text(value) => {
                        let ghost before: Seq<Seq<char>> = r.deep_view();
                        let script: String = scripts::fill_field_script(
                            form,
                            field.0.as_str(),
                            value.as_str(),
                        );
                        r.push(script);
                        assert(r.deep_view() =~= before.push(script@));
                    },
                    _ => {},
                }
                i = i + 1;
            }
            assert(views.take(i as int) =~= views);
            r
        },
        _ => r,
    }
}

impl ManagerView {
    /// The next step in filling a form. Without a page nothing is left to do.
    pub open spec fn fill_next(self, rest: Seq<Seq<char>>) -> StepView<
        FillingForm<Seq<Seq<char>>>,
        (),
    > {
        match self.page() {
            Some(page) => if rest.len() > 0 {
                StepView::Ask(
                    ActionView::Evaluate { page, script: rest[0] },
                    FillingForm { rest: rest.drop_first() },
                )
            } else {
                StepView::Done(Ok(()))
            },
            None => StepView::Done(Ok(())),
        }
    }
}

impl ManagerView {
    /// What comes after an event while a form is filled: the next script, whatever became of the
    /// last one.
    pub open spec fn fill_form_next(
        self,
        stage: FillingForm<Seq<Seq<char>>>,
        event: Event,
    ) -> StepView<FillingForm<Seq<Seq<char>>>, ()> {
        self.fill_next(stage.rest)
    }
}

impl Operation for FillingForm<Vec<String>> {
    type Output = ();

    fn resume(self, manager: &mut BrowserManager, event: Event) -> (step: Step<Self, ()>)
        ensures
            final(manager)@ == old(manager)@,
            step.deep_view() == old(manager)@.fill_form_next(self.deep_view(), event),
    {
        manager.fill_next(self.rest)
    }
}

/// How far a window is scrolled to the right and down.
pub open spec fn scroll_offset(direction: Seq<char>, amount: int) -> (int, int) {
    if direction == "up"@ {
        (0, -amount)
    } else if direction == "left"@ {
        (-amount, 0)
    } else if direction == "right"@ {
        (amount, 0)
    } else {
        (0, amount)
    }
}

impl ManagerView {
    /// The first step of scrolling the window.
    pub open spec fn scroll(self, direction: Seq<char>, amount: i32) -> StepView<Running, ()> {
        self.run(
            scripts::scroll_by(
                scroll_offset(direction, amount as int).0 as i32,
                scroll_offset(direction, amount as int).1 as i32,
            ),
        )
    }
}

impl ManagerView {
    /// The first step of measuring an element.
    pub open spec fn get_element_bounds(self, selector: Seq<char>) -> StepView<Measuring<Seq<char>>, Seq<JsonView>> {
        self.ask::<Measuring<Seq<char>>, Seq<JsonView>>(
            scripts::bounds(selector),
            Measuring { selector: selector },
        )
    }
}

impl ManagerView {
    /// The first step of choosing a value.
    pub open spec fn select_option(self, selector: Seq<char>, value: Seq<char>) -> StepView<Running, ()> {
        self.run(scripts::choose_value(selector, value))
    }
}

impl ManagerView {
    /// The first step of listing what can be clicked.
    pub open spec fn get_clickables(self) -> StepView<Listing, Seq<JsonView>> {
        self.ask::<Listing, Seq<JsonView>>(
            scripts::CLICKABLES@,
            Listing {  },
        )
    }
}

impl ManagerView {
    /// The first step of measuring the page.
    pub open spec fn get_metrics(self) -> StepView<Evaluating, JsonView> {
        self.evaluate(scripts::METRICS@)
    }
}

impl ManagerView {
    /// The first step of running a script in a function of its own.
    pub open spec fn inject_script(self, script: Seq<char>) -> StepView<Running, ()> {
        self.run(scripts::enclosed(script))
    }
}

impl ManagerView {
    /// The first step of listing the forms.
    pub open spec fn get_forms(self) -> StepView<Evaluating, JsonView> {
        self.evaluate(scripts::FORMS@)
    }
}

impl ManagerView {
    /// The first step of filling a form.
    pub open spec fn fill_form(self, form_selector: Seq<char>, data: JsonView) -> StepView<FillingForm<Seq<Seq<char>>>, ()> {
        self.fill_next(form_scripts(form_selector, data))
    }
}

impl ManagerView {
    /// The first step of submitting a form.
    pub open spec fn submit_form(self, selector: Seq<char>) -> StepView<Settling, ()> {
        self.ask::<Settling, ()>(
            scripts::submit(selector),
            Settling::Running { ms: 500 },
        )
    }
}

impl ManagerView {
    /// The first step of waiting for the network.
    pub open spec fn wait_network_idle(self, timeout_ms: u64) -> StepView<Settling, ()> {
        StepView::<Settling, ()>::Ask(
            ActionView::Sleep {
                ms: if timeout_ms < 5000 {
                    timeout_ms
                } else {
                    5000
                },
            },
            Settling::Sleeping,
        )
    }
}

impl ManagerView {
    /// The first step of reading the address of the page.
    pub open spec fn get_url(self) -> StepView<ReadingAddress, Seq<char>> {
        self.ask::<ReadingAddress, Seq<char>>(
            scripts::CURRENT_ADDRESS@,
            ReadingAddress {  },
        )
    }
}

impl ManagerView {
    /// The first step of going back.
    pub open spec fn go_back(self) -> StepView<Settling, ()> {
        self.ask::<Settling, ()>(
            scripts::HISTORY_BACK@,
            Settling::Running { ms: 500 },
        )
    }
}

impl ManagerView {
    /// The first step of going forward.
    pub open spec fn go_forward(self) -> StepView<Settling, ()> {
        self.ask::<Settling, ()>(
            scripts::HISTORY_FORWARD@,
            Settling::Running { ms: 500 },
        )
    }
}

impl ManagerView {
    /// The first step of loading the page again.
    pub open spec fn reload(self) -> StepView<Settling, ()> {
        self.ask::<Settling, ()>(
            scripts::RELOAD@,
            Settling::Running { ms: 1000 },
        )
    }
}

impl BrowserManager {
    fn fill_next(&self, rest: Vec<String>) -> (step: Step<FillingForm<Vec<String>>, ()>)
        ensures
            step.deep_view() == self@.fill_next(rest.deep_view()),
    {
        match self.page() {
            Ok(page) => {
                assert(rest.deep_view().len() == rest@.len());
                if rest.len() > 0 {
                    let mut rest: Vec<String> = rest;
                    let ghost views: Seq<Seq<char>> = rest.deep_view();
                    let script: String = rest.remove(0);
                    assert(rest.deep_view() =~= views.drop_first());
                    Step::Ask(Action::Evaluate { page, script }, FillingForm { rest })
                } else {
                    Step::Done(Ok(()))
                }
            },
            Err(_) => Step::Done(Ok(())),
        }
    }

    /// Runs a script and gives the page time to settle.
    fn settle(&self, script: String, ms: u64) -> (step: Step<Settling, ()>)
        ensures
            step.deep_view() == self@.ask::<Settling, ()>(script@, Settling::Running { ms }),
    {
        self.ask(script, Settling::Running { ms })
    }

    /// Scrolls the window; an unknown direction scrolls down.
    pub fn scroll(&self, direction: &str, amount: i32) -> (step: Step<Running, ()>)
        requires
            direction@ == "up"@ || direction@ == "left"@ ==> amount > i32::MIN,
        ensures
            step.deep_view() == self@.scroll(direction@, amount),
    {
        let offset: (i32, i32) = if text::same_text(direction, "up") {
            (0, -amount)
        } else if text::same_text(direction, "left") {
            (-amount, 0)
        } else if text::same_text(direction, "right") {
            (amount, 0)
        } else {
            (0, amount)
        };
        self.run(scripts::scroll_by_script(offset.0, offset.1))
    }

    /// Asks for the rectangle of an element: the four numbers of left, top, width and height.
    pub fn get_element_bounds(&self, selector: &str) -> (step: Step<Measuring<String>, Vec<Json>>)
        ensures
            step.deep_view() == self@.get_element_bounds(selector@),
    {
        self.ask(scripts::bounds_script(selector), Measuring { selector: selector.to_owned() })
    }

    /// Chooses a value of a selection field.
    pub fn select_option(&self, selector: &str, value: &str) -> (step: Step<Running, ()>)
        ensures
            step.deep_view() == self@.select_option(selector@, value@),
    {
        self.run(scripts::choose_value_script(selector, value))
    }

    /// Asks for the elements that can be clicked.
    pub fn get_clickables(&self) -> (step: Step<Listing, Vec<Json>>)
        ensures
            step.deep_view() == self@.get_clickables(),
    {
        self.ask(scripts::CLICKABLES.to_owned(), Listing {  })
    }

    /// Asks for address, title, scroll position and size of the page.
    pub fn get_metrics(&self) -> (step: Step<Evaluating, Json>)
        ensures
            step.deep_view() == self@.get_metrics(),
    {
        self.evaluate(scripts::METRICS)
    }

    /// Runs a script in a function of its own.
    pub fn inject_script(&self, script: &str) -> (step: Step<Running, ()>)
        ensures
            step.deep_view() == self@.inject_script(script@),
    {
        self.run(scripts::enclosed_script(script))
    }

    /// Asks for the forms of the page.
    pub fn get_forms(&self) -> (step: Step<Evaluating, Json>)
        ensures
            step.deep_view() == self@.get_forms(),
    {
        self.evaluate(scripts::FORMS)
    }

    /// Fills a form: every member of the data that is a string goes into the field of its name.
    /// What becomes of a script is of no interest.
    pub fn fill_form(&self, form_selector: &str, data: &Json) -> (step: Step<
        FillingForm<Vec<String>>,
        (),
    >)
        ensures
            step.deep_view() == self@.fill_form(form_selector@, data.deep_view()),
    {
        self.fill_next(form_script_list(form_selector, data))
    }

    /// Submits a form and gives the page time to settle.
    pub fn submit_form(&self, selector: &str) -> (step: Step<Settling, ()>)
        ensures
            step.deep_view() == self@.submit_form(selector@),
    {
        self.settle(scripts::submit_script(selector), 500)
    }

    /// Waits as long as it is asked to, but five seconds at most.
    pub fn wait_network_idle(&self, timeout_ms: u64) -> (step: Step<Settling, ()>)
        ensures
            step.deep_view() == self@.wait_network_idle(timeout_ms),
    {
        let ms: u64 = if timeout_ms < 5000 {
            timeout_ms
        } else {
            5000
        };
        Step::Ask(Action::Sleep { ms }, Settling::Sleeping)
    }

    /// Asks for the address of the page.
    pub fn get_url(&self) -> (step: Step<ReadingAddress, String>)
        ensures
            step.deep_view() == self@.get_url(),
    {
        self.ask(scripts::CURRENT_ADDRESS.to_owned(), ReadingAddress {  })
    }

    /// Goes back in the history and gives the page time to settle.
    pub fn go_back(&self) -> (step: Step<Settling, ()>)
        ensures
            step.deep_view() == self@.go_back(),
    {
        self.settle(scripts::HISTORY_BACK.to_owned(), 500)
    }

    /// Goes forward in the history and gives the page time to settle.
    pub fn go_forward(&self) -> (step: Step<Settling, ()>)
        ensures
            step.deep_view() == self@.go_forward(),
    {
        self.settle(scripts::HISTORY_FORWARD.to_owned(), 500)
    }

    /// Loads the page again and gives it time to settle.
    pub fn reload(&self) -> (step: Step<Settling, ()>)
        ensures
            step.deep_view() == self@.reload(),
    {
        self.settle(scripts::RELOAD.to_owned(), 1000)
    }
}

} // verus!
