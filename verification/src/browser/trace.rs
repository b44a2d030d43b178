//! Traces: a record of what happens on a page, kept in part by the page and in part here.

use vstd::prelude::*;

use crate::browser::evaluation;
use crate::browser::evaluation::into_items;
use crate::browser::{BrowserManager, ManagerView};
use crate::error::{BrowserError, ErrorView};
use crate::json;
use crate::json::{no_fields, push_field, push_item, Json, JsonView};
use crate::scripts;
use crate::step::{Action, ActionView, Event, Operation, Step, StepView};
use crate::text;

verus! {

/// Starts a trace.
#[derive(Debug)]
pub struct StartingTrace {}

impl DeepView for StartingTrace {
    type V = StartingTrace;

    open spec fn deep_view(&self) -> StartingTrace {
        *self
    }
}

/// The first entry of a trace.
pub open spec fn start_entry(url: Seq<char>) -> JsonView {
    JsonView::Object(
        seq![
            ("type"@, JsonView::Text("trace_start"@)),
            ("time"@, JsonView::Number(text::decimal(0))),
            ("url"@, JsonView::Text(url)),
        ],
    )
}

fn describe_start(url: &str) -> (r: Json)
    ensures
        r.deep_view() == start_entry(url@),
{
    let mut fields: Vec<(String, Json)> = no_fields();
    push_field(&mut fields, "type", Json::text("trace_start"));
    push_field(&mut fields, "time", Json::number(0));
    push_field(&mut fields, "url", Json::text(url));
    assert(json::members(fields@) =~= start_entry(url@)->Object_0);
    Json::object(fields)
}

impl ManagerView {
    /// The state with one more entry in the trace.
    pub open spec fn with_entry(self, entry: JsonView) -> ManagerView {
        ManagerView { trace_entries: self.trace_entries.push(entry), ..self }
    }

    /// The first step of starting a trace, and the state after it. The trace counts as active
    /// from here on, also where the page refuses the script.
    pub open spec fn trace_start(self) -> (ManagerView, StepView<StartingTrace, Seq<char>>) {
        if self.trace_active {
            (self, StepView::Done(Err(ErrorView::Cdp("Trace already active"@))))
        } else {
            (
                ManagerView { trace_active: true, trace_entries: seq![], ..self },
                self.ask(scripts::TRACE_START@, StartingTrace {  }),
            )
        }
    }

    /// The end of starting a trace, and the state then.
    pub open spec fn trace_start_next(self, event: Event) -> (
        ManagerView,
        StepView<StartingTrace, Seq<char>>,
    ) {
        match event.outcome() {
            Ok(_) => (
                self.with_entry(start_entry(self.current_url)),
                StepView::Done(Ok("Trace recording started"@)),
            ),
            Err(e) => (self, StepView::Done(Err(e))),
        }
    }
}

impl Operation for StartingTrace {
    type Output = String;

    fn resume(self, manager: &mut BrowserManager, event: Event) -> (step: Step<Self, String>)
        ensures
            (final(manager)@, step.deep_view()) == old(manager)@.trace_start_next(event),
    {
        match event.into_outcome() {
            Ok(_) => {
                let entry: Json = describe_start(manager.current_url.as_str());
                push_item(&mut manager.trace_entries, entry);
                Step::Done(Ok("Trace recording started".to_owned()))
            },
            Err(e) => Step::Done(Err(e)),
        }
    }
}

/// Stops a trace.
#[derive(Debug)]
pub enum StoppingTrace<J> {
    /// The entries of the page are read.
    Reading,
    /// The page is cleaned up.
    Cleaning { found: J },
}

impl DeepView for StoppingTrace<Json> {
    type V = StoppingTrace<JsonView>;

    open spec fn deep_view(&self) -> StoppingTrace<JsonView> {
        match self {
            StoppingTrace::Reading => StoppingTrace::Reading,
            StoppingTrace::Cleaning { found } => StoppingTrace::Cleaning {
                found: found.deep_view(),
            },
        }
    }
}

/// A whole trace.
pub open spec fn trace_json(entries: Seq<JsonView>) -> JsonView {
    JsonView::Object(
        seq![
            ("entries"@, JsonView::Array(entries)),
            ("count"@, JsonView::Number(text::decimal(entries.len()))),
        ],
    )
}

fn describe_trace(entries: Vec<Json>) -> (r: Json)
    ensures
        r.deep_view() == trace_json(entries.deep_view()),
{
    let count: usize = entries.len();
    assert(entries.deep_view().len() == count);
    let mut fields: Vec<(String, Json)> = no_fields();
    push_field(&mut fields, "entries", Json::array(entries));
    push_field(&mut fields, "count", Json::number(count as u128));
    assert(json::members(fields@) =~= trace_json(entries.deep_view())->Object_0);
    Json::object(fields)
}

/// The entries that a text was read as; none where it is no array.
pub open spec fn read_items(read: Option<JsonView>) -> Seq<JsonView> {
    match read {
        Some(value) => evaluation::items_of(value),
        None => seq![],
    }
}

/// The entries that a text was read as; none where it is no array.
pub fn take_items(read: Option<Json>) -> (r: Vec<Json>)
    ensures
        r.deep_view() == read_items(read.deep_view()),
{
    match read {
        Some(value) => into_items(value),
        None => json::no_items(),
    }
}

/// The entries of the page: they come as JSON text or as an array.
pub open spec fn found_items(found: JsonView) -> Seq<JsonView> {
    match found {
        JsonView::Text(text) => read_items(json::read_json(text)),
        _ => evaluation::items_of(found),
    }
}

fn take_found(found: Json) -> (r: Vec<Json>)
    ensures
        r.deep_view() == found_items(found.deep_view()),
{
    match found {
        Json::Text(text) => take_items(json::parse(text.as_str())),
        _ => into_items(found),
    }
}

impl ManagerView {
    /// The first step of stopping a trace.
    pub open spec fn trace_stop(self) -> StepView<StoppingTrace<JsonView>, JsonView> {
        if self.trace_active {
            self.ask(scripts::READ_TRACE@, StoppingTrace::Reading)
        } else {
            StepView::Done(Err(ErrorView::Cdp("No active trace"@)))
        }
    }

    /// The end of a trace, with the entries of the page after those kept here.
    pub open spec fn trace_end(self, found: Seq<JsonView>) -> (
        ManagerView,
        StepView<StoppingTrace<JsonView>, JsonView>,
    ) {
        (
            ManagerView { trace_active: false, trace_entries: seq![], ..self },
            StepView::Done(Ok(trace_json(self.trace_entries + found))),
        )
    }

    /// What comes after an event while a trace is stopped, and the state then.
    pub open spec fn trace_stop_next(self, stage: StoppingTrace<JsonView>, event: Event) -> (
        ManagerView,
        StepView<StoppingTrace<JsonView>, JsonView>,
    ) {
        match stage {
            StoppingTrace::Reading => match event.value() {
                Ok(found) => match self.page() {
                    Some(page) => (
                        self,
                        StepView::Ask(
                            ActionView::Evaluate { page, script: scripts::TRACE_CLEANUP@ },
                            StoppingTrace::Cleaning { found },
                        ),
                    ),
                    None => self.trace_end(found_items(found)),
                },
                Err(e) => (self, StepView::Done(Err(e))),
            },
            StoppingTrace::Cleaning { found } => self.trace_end(found_items(found)),
        }
    }
}

impl Operation for StoppingTrace<Json> {
    type Output = Json;

    fn resume(self, manager: &mut BrowserManager, event: Event) -> (step: Step<Self, Json>)
        ensures
            (final(manager)@, step.deep_view()) == old(manager)@.trace_stop_next(
                self.deep_view(),
                event,
            ),
    {
        match self {
            StoppingTrace::Reading => match event.into_value() {
                Ok(found) => match manager.page() {
                    Ok(page) => Step::Ask(
                        Action::Evaluate { page, script: scripts::TRACE_CLEANUP.to_owned() },
                        StoppingTrace::Cleaning { found },
                    ),
                    Err(_) => manager.trace_end(take_found(found)),
                },
                Err(e) => Step::Done(Err(e)),
            },
            StoppingTrace::Cleaning { found } => manager.trace_end(take_found(found)),
        }
    }
}

/// Stops a trace and writes it to a file.
#[derive(Debug)]
pub enum SavingTrace<S, J> {
    /// The trace is stopped.
    Stopping { inner: StoppingTrace<J>, path: S },
    /// The file is written.
    Writing { path: S, count: u64 },
}

impl DeepView for SavingTrace<String, Json> {
    type V = SavingTrace<Seq<char>, JsonView>;

    open spec fn deep_view(&self) -> SavingTrace<Seq<char>, JsonView> {
        match self {
            SavingTrace::Stopping { inner, path } => SavingTrace::Stopping {
                inner: inner.deep_view(),
                path: path@,
            },
            SavingTrace::Writing { path, count } => SavingTrace::Writing {
                path: path@,
                count: *count,
            },
        }
    }
}

/// The number of entries that a trace states.
pub open spec fn stated_count(trace: JsonView) -> u64 {
    match trace.get("count"@) {
        Some(count) => match count.as_u64() {
            Some(n) => n,
            None => 0,
        },
        None => 0,
    }
}

fn read_count(trace: &Json) -> (r: u64)
    ensures
        r == stated_count(trace.deep_view()),
{
    match trace.get("count") {
        Some(count) => match count.as_u64() {
            Some(n) => n,
            None => 0,
        },
        None => 0,
    }
}

/// What is reported of a saved trace.
pub open spec fn saved_report(path: Seq<char>, count: u64) -> Seq<char> {
    "Trace saved to "@ + path + " ("@ + text::decimal(count as nat) + " entries)"@
}

fn saved_text(path: &str, count: u64) -> (r: String)
    ensures
        r@ == saved_report(path@, count),
{
    let mut r: String = "Trace saved to ".to_owned().concat(path).concat(" (");
    text::push_decimal(&mut r, count as u128);
    r.append(" entries)");
    r
}

impl SavingTrace<Seq<char>, JsonView> {
    /// Writes a trace with that number of entries, given as text.
    pub open spec fn write(text: Seq<char>, count: u64, path: Seq<char>) -> StepView<
        SavingTrace<Seq<char>, JsonView>,
        Seq<char>,
    > {
        StepView::Ask(
            ActionView::WriteText { path, text },
            SavingTrace::Writing { path, count },
        )
    }

    /// Puts a step of stopping the trace into the whole; the trace itself is written as indented
    /// JSON text.
    pub open spec fn wrap(
        step: StepView<StoppingTrace<JsonView>, JsonView>,
        path: Seq<char>,
    ) -> StepView<SavingTrace<Seq<char>, JsonView>, Seq<char>> {
        match step {
            StepView::Ask(action, inner) => StepView::Ask(
                action,
                SavingTrace::Stopping { inner, path },
            ),
            StepView::Done(Ok(trace)) => Self::write(
                json::pretty_text(trace),
                stated_count(trace),
                path,
            ),
            StepView::Done(Err(e)) => StepView::Done(Err(e)),
        }
    }
}

/// What is written of a trace reads back as the trace.
pub open spec fn saved_faithfully(step: StepView<StoppingTrace<JsonView>, JsonView>) -> bool {
    match step {
        StepView::Done(Ok(trace)) => json::readable(trace) ==> json::reads_as(
            json::pretty_text(trace),
            trace,
        ),
        _ => true,
    }
}

/// Writes a trace with that number of entries, given as text.
pub fn write_trace(text: String, count: u64, path: String) -> (r: Step<
    SavingTrace<String, Json>,
    String,
>)
    ensures
        r.deep_view() == SavingTrace::write(text@, count, path@),
{
    let target: String = path.clone();
    Step::Ask(Action::WriteText { path: target, text }, SavingTrace::Writing { path, count })
}

fn wrap_stop(step: Step<StoppingTrace<Json>, Json>, path: String) -> (r: Step<
    SavingTrace<String, Json>,
    String,
>)
    ensures
        r.deep_view() == SavingTrace::wrap(step.deep_view(), path@),
        saved_faithfully(step.deep_view()),
{
    match step {
        Step::Ask(action, inner) => Step::Ask(action, SavingTrace::Stopping { inner, path }),
        Step::Done(Ok(trace)) => {
            let count: u64 = read_count(&trace);
            write_trace(json::pretty(&trace), count, path)
        },
        Step::Done(Err(e)) => Step::Done(Err(e)),
    }
}

impl ManagerView {
    /// The first step of saving a trace.
    pub open spec fn trace_save(self, path: Seq<char>) -> StepView<
        SavingTrace<Seq<char>, JsonView>,
        Seq<char>,
    > {
        SavingTrace::wrap(self.trace_stop(), path)
    }

    /// The state after an entry was added by hand.
    pub open spec fn trace_log(
        self,
        entry_type: Seq<char>,
        name: Seq<char>,
        time: u64,
        details: Option<JsonView>,
    ) -> ManagerView {
        if self.trace_active {
            self.with_entry(log_entry(entry_type, name, time, details))
        } else {
            self
        }
    }

    /// What comes after an event while a trace is saved, and the state then.
    pub open spec fn trace_save_next(
        self,
        stage: SavingTrace<Seq<char>, JsonView>,
        event: Event,
    ) -> (ManagerView, StepView<SavingTrace<Seq<char>, JsonView>, Seq<char>>) {
        match stage {
            SavingTrace::Stopping { inner, path } => {
                let (state, step) = self.trace_stop_next(inner, event);
                (state, SavingTrace::wrap(step, path))
            },
            SavingTrace::Writing { path, count } => (
                self,
                match event.failure() {
                    Some(m) => StepView::Done(
                        Err(ErrorView::Cdp("Failed to write trace: "@ + m)),
                    ),
                    None => StepView::Done(Ok(saved_report(path, count))),
                },
            ),
        }
    }
}

impl Operation for SavingTrace<String, Json> {
    type Output = String;

    fn resume(self, manager: &mut BrowserManager, event: Event) -> (step: Step<Self, String>)
        ensures
            (final(manager)@, step.deep_view()) == old(manager)@.trace_save_next(
                self.deep_view(),
                event,
            ),
            self.deep_view() matches SavingTrace::Stopping { inner, .. } ==> saved_faithfully(
                old(manager)@.trace_stop_next(inner, event).1,
            ),
    {
        match self {
            SavingTrace::Stopping { inner, path } => {
                let step: Step<StoppingTrace<Json>, Json> = inner.resume(manager, event);
                wrap_stop(step, path)
            },
            SavingTrace::Writing { path, count } => match event {
                Event::Failed(m) => Step::Done(
                    Err(
                        BrowserError::Cdp(
                            "Failed to write trace: ".to_owned().concat(m.as_str()),
                        ),
                    ),
                ),
                _ => Step::Done(Ok(saved_text(path.as_str(), count))),
            },
        }
    }
}

/// An entry that was added by hand.
pub open spec fn log_entry(
    entry_type: Seq<char>,
    name: Seq<char>,
    time: u64,
    details: Option<JsonView>,
) -> JsonView {
    let fields: Seq<(Seq<char>, JsonView)> = seq![
        ("type"@, JsonView::Text(entry_type)),
        ("name"@, JsonView::Text(name)),
        ("time"@, JsonView::Number(text::decimal(time as nat))),
    ];
    JsonView::Object(
        match details {
            Some(d) => fields.push(("details"@, d)),
            None => fields,
        },
    )
}

fn describe_log(entry_type: &str, name: &str, time: u64, details: Option<Json>) -> (r: Json)
    ensures
        r.deep_view() == log_entry(entry_type@, name@, time, details.deep_view()),
{
    let mut fields: Vec<(String, Json)> = no_fields();
    push_field(&mut fields, "type", Json::text(entry_type));
    push_field(&mut fields, "name", Json::text(name));
    push_field(&mut fields, "time", Json::number(time as u128));
    if let Some(d) = details {
        push_field(&mut fields, "details", d);
    }
    assert(json::members(fields@) =~= log_entry(
        entry_type@,
        name@,
        time,
        details.deep_view(),
    )->Object_0);
    Json::object(fields)
}

impl BrowserManager {
    /// Starts a trace.
    pub fn trace_start(&mut self) -> (step: Step<StartingTrace, String>)
        ensures
            (final(self)@, step.deep_view()) == old(self)@.trace_start(),
    {
        if self.trace_active {
            return Step::Done(Err(BrowserError::Cdp("Trace already active".to_owned())));
        }
        self.trace_active = true;
        self.trace_entries.clear();
        assert(self.trace_entries.deep_view() =~= Seq::<JsonView>::empty());
        self.ask(scripts::TRACE_START.to_owned(), StartingTrace {  })
    }

    /// Ends the trace with the entries of the page.
    pub fn trace_end(&mut self, found: Vec<Json>) -> (step: Step<StoppingTrace<Json>, Json>)
        ensures
            (final(self)@, step.deep_view()) == old(self)@.trace_end(found.deep_view()),
    {
        let mut entries: Vec<Json> = Vec::new();
        let mut found: Vec<Json> = found;
        let ghost kept: Seq<JsonView> = self.trace_entries.deep_view();
        let ghost added: Seq<JsonView> = found.deep_view();
        std::mem::swap(&mut entries, &mut self.trace_entries);
        self.trace_active = false;
        entries.append(&mut found);
        assert(entries.deep_view() =~= kept + added);
        assert(self.trace_entries.deep_view() =~= Seq::<JsonView>::empty());
        Step::Done(Ok(describe_trace(entries)))
    }

    /// Stops the trace; the result holds all entries.
    pub fn trace_stop(&mut self) -> (step: Step<StoppingTrace<Json>, Json>)
        ensures
            final(self)@ == old(self)@,
            step.deep_view() == old(self)@.trace_stop(),
    {
        if !self.trace_active {
            return Step::Done(Err(BrowserError::Cdp("No active trace".to_owned())));
        }
        self.ask(scripts::READ_TRACE.to_owned(), StoppingTrace::Reading)
    }

    /// Stops the trace and writes it to a file.
    pub fn trace_save(&mut self, path: &str) -> (step: Step<SavingTrace<String, Json>, String>)
        ensures
            final(self)@ == old(self)@,
            step.deep_view() == old(self)@.trace_save(path@),
    {
        let step: Step<StoppingTrace<Json>, Json> = self.trace_stop();
        wrap_stop(step, path.to_owned())
    }

    /// Adds an entry to the trace that is being recorded, if any; `time` is in milliseconds
    /// since 1970.
    pub fn trace_log(&mut self, entry_type: &str, name: &str, time: u64, details: Option<Json>)
        ensures
            final(self)@ == old(self)@.trace_log(entry_type@, name@, time, details.deep_view()),
    {
        if self.trace_active {
            let entry: Json = describe_log(entry_type, name, time, details);
            push_item(&mut self.trace_entries, entry);
        }
    }
}

} // verus!
