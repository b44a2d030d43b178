//! Routes: rules for the requests that a page makes.

use vstd::prelude::*;

use crate::browser::evaluation::{Evaluating, Running};
use crate::browser::{BrowserManager, ManagerView};
use crate::error::BrowserError;
use crate::json;
use crate::json::{no_fields, no_items, push_field, push_item, Json, JsonView};
use crate::scripts;
use crate::step::{Event, Operation, Step, StepView};
use crate::text;

verus! {

/// A rule for the requests that match a pattern.
#[derive(Clone, Debug, PartialEq, Eq)]
pub struct RouteRule {
    pub pattern: String,
    pub action: RouteAction,
}

/// What becomes of a request.
#[derive(Clone, Debug, PartialEq, Eq)]
pub enum RouteAction {
    /// It is blocked.
    Block,
    /// It is answered with this response.
    Mock { status: u16, content_type: String, body: String },
    /// It is noted, and goes out.
    Log,
}

/// The mathematical content of a [`RouteAction`].
#[verifier::ext_equal]
pub enum RouteActionView {
    Block,
    Mock { status: u16, content_type: Seq<char>, body: Seq<char> },
    Log,
}

/// The mathematical content of a [`RouteRule`].
#[verifier::ext_equal]
pub struct RouteView {
    pub pattern: Seq<char>,
    pub action: RouteActionView,
}

impl DeepView for RouteAction {
    type V = RouteActionView;

    open spec fn deep_view(&self) -> RouteActionView {
        match self {
            RouteAction::Block => RouteActionView::Block,
            RouteAction::Mock { status, content_type, body } => RouteActionView::Mock {
                status: *status,
                content_type: content_type@,
                body: body@,
            },
            RouteAction::Log => RouteActionView::Log,
        }
    }
}

impl DeepView for RouteRule {
    type V = RouteView;

    open spec fn deep_view(&self) -> RouteView {
        RouteView { pattern: self.pattern@, action: self.action.deep_view() }
    }
}

/// An action as it stands in the rules on the page.
pub open spec fn action_text(action: RouteActionView) -> Seq<char> {
    match action {
        RouteActionView::Block => r#"{"type":"block"}"#@,
        RouteActionView::Mock { status, content_type, body } => r#"{"type":"mock","status":"#@
            + text::decimal(status as nat) + r#","contentType":""#@ + text::escaped(
            content_type,
            '"',
        ) + r#"","body":"#@ + json::quoted(body) + "}"@,
        RouteActionView::Log => r#"{"type":"log"}"#@,
    }
}

/// A route as it stands in the rules on the page.
pub open spec fn rule_text(route: RouteView) -> Seq<char> {
    r#"{"pattern":""#@ + text::escaped(route.pattern, '"') + r#"","action":"#@ + action_text(
        route.action,
    ) + "}"@
}

/// Routes as they stand in the rules on the page, with commas between them.
pub open spec fn rules_body(routes: Seq<RouteView>) -> Seq<char>
    decreases routes.len(),
{
    if routes.len() == 0 {
        seq![]
    } else if routes.len() == 1 {
        rule_text(routes[0])
    } else {
        rules_body(routes.drop_last()) + seq![','] + rule_text(routes.last())
    }
}

/// The rules on the page.
pub open spec fn rules_text(routes: Seq<RouteView>) -> Seq<char> {
    "["@ + rules_body(routes) + "]"@
}

/// An action as it is shown when its route is added.
pub open spec fn action_debug(action: RouteActionView) -> Seq<char> {
    match action {
        RouteActionView::Block => "Block"@,
        RouteActionView::Mock { status, content_type, body } => mock_debug(
            status,
            text::debug_quoted(content_type),
            text::debug_quoted(body),
        ),
        RouteActionView::Log => "Log"@,
    }
}

/// A mock response as it is shown, where its type and its body are quoted already.
pub open spec fn mock_debug(status: u16, content_type: Seq<char>, body: Seq<char>) -> Seq<char> {
    "Mock { status: "@ + text::decimal(status as nat) + ", content_type: "@ + content_type
        + ", body: "@ + body + " }"@
}

/// The report of a route that was added, with its action as it is shown and the number of
/// routes there are then.
pub open spec fn added_report(pattern: Seq<char>, action: Seq<char>, count: nat) -> Seq<char> {
    "Route added: "@ + pattern + " ("@ + action + "), "@ + text::decimal(count)
        + " total routes"@
}

/// The report of routes that were removed, with the number of routes that are left.
pub open spec fn removed_report(removed: nat, pattern: Seq<char>, left: nat) -> Seq<char> {
    "Removed "@ + text::decimal(removed) + " route(s) matching '"@ + pattern + "', "@
        + text::decimal(left) + " remaining"@
}

/// An action as it is listed.
pub open spec fn action_label(action: RouteActionView) -> Seq<char> {
    match action {
        RouteActionView::Block => "block"@,
        RouteActionView::Mock { status, content_type, .. } => "mock("@ + text::decimal(
            status as nat,
        ) + "; "@ + content_type + ")"@,
        RouteActionView::Log => "log"@,
    }
}

/// A route as it is listed.
pub open spec fn listed(route: RouteView) -> JsonView {
    JsonView::Object(
        seq![
            ("pattern"@, JsonView::Text(route.pattern)),
            ("action"@, JsonView::Text(action_label(route.action))),
        ],
    )
}

/// The routes whose pattern is not this one.
pub open spec fn without(routes: Seq<RouteView>, pattern: Seq<char>) -> Seq<RouteView> {
    routes.filter(|r: RouteView| r.pattern != pattern)
}

impl ManagerView {
    /// The state after a route was added.
    pub open spec fn with_route(self, route: RouteView) -> ManagerView {
        ManagerView { routes: self.routes.push(route), ..self }
    }

    /// The state without the routes of a pattern.
    pub open spec fn without_route(self, pattern: Seq<char>) -> ManagerView {
        ManagerView { routes: without(self.routes, pattern), ..self }
    }

    /// The first step of giving the page the rules for the routes.
    pub open spec fn inject_interception<P, T>(self, next: P) -> StepView<P, T> {
        self.ask(scripts::interception(rules_text(self.routes)), next)
    }

    /// The state in which the page has the rules.
    pub open spec fn intercepting(self) -> ManagerView {
        ManagerView { interception_active: true, ..self }
    }

    /// The state without any routes.
    pub open spec fn passing(self) -> ManagerView {
        ManagerView { routes: seq![], interception_active: false, ..self }
    }
}

/// The rule for one action.
pub fn action_rule(action: &RouteAction) -> (r: String)
    ensures
        r@ == action_text(action.deep_view()),
{
    match action {
        RouteAction::Block => r#"{"type":"block"}"#.to_owned(),
        RouteAction::Mock { status, content_type, body } => {
            let mut s: String = r#"{"type":"mock","status":"#.to_owned();
            text::push_decimal(&mut s, *status as u128);
            s.append(r#","contentType":""#);
            s.append(text::escape(content_type.as_str(), '"').as_str());
            s.append(r#"","body":"#);
            s.append(json::quote(body.as_str()).as_str());
            s.append("}");
            s
        },
        RouteAction::Log => r#"{"type":"log"}"#.to_owned(),
    }
}

/// The rules for routes, as an array on the page.
pub fn rules(routes: &Vec<RouteRule>) -> (r: String)
    ensures
        r@ == rules_text(routes.deep_view()),
{
    let ghost views: Seq<RouteView> = routes.deep_view();
    let mut s: String = "[".to_owned();
    let mut i: usize = 0;
    assert(s@ =~= "["@ + rules_body(views.take(0)));
    while i < routes.len()
        invariant
            i <= routes@.len(),
            views == routes.deep_view(),
            s@ == "["@ + rules_body(views.take(i as int)),
        decreases routes@.len() - i,
    {
        let ghost before: Seq<char> = s@;
        if i > 0 {
            s.push(',');
        }
        let ghost separated: Seq<char> = s@;
        let route: &RouteRule = &routes[i];
        let mut one: String = r#"{"pattern":""#.to_owned();
        one.append(text::escape(route.pattern.as_str(), '"').as_str());
        one.append(r#"","action":"#);
        one.append(action_rule(&route.action).as_str());
        one.append("}");
        s.append(one.as_str());
        proof {
            let next: Seq<RouteView> = views.take(i + 1);
            assert(next.last() == route.deep_view());
            assert(next.drop_last() =~= views.take(i as int));
            assert(one@ == rule_text(next.last()));
            if i > 0 {
                assert(s@ =~= "["@ + (rules_body(next.drop_last()) + seq![','] + rule_text(
                    next.last(),
                )));
            } else {
                assert(next[0] == next.last());
                assert(s@ =~= "["@ + rule_text(next[0]));
            }
        }
        i = i + 1;
    }
    assert(views.take(views.len() as int) =~= views);
    s.append("]");
    s
}

fn debug_action(action: &RouteAction) -> (r: String)
    ensures
        r@ == action_debug(action.deep_view()),
{
    match action {
        RouteAction::Block => "Block".to_owned(),
        RouteAction::Mock { status, content_type, body } => {
            let content_type: String = text::debug_quote(content_type.as_str());
            let body: String = text::debug_quote(body.as_str());
            show_mock(*status, content_type.as_str(), body.as_str())
        },
        RouteAction::Log => "Log".to_owned(),
    }
}

/// Shows a mock response, where its type and its body are quoted already.
pub fn show_mock(status: u16, content_type: &str, body: &str) -> (r: String)
    ensures
        r@ == mock_debug(status, content_type@, body@),
{
    let mut s: String = "Mock { status: ".to_owned();
    text::push_decimal(&mut s, status as u128);
    s.append(", content_type: ");
    s.append(content_type);
    s.append(", body: ");
    s.append(body);
    s.append(" }");
    s
}

/// Reports a route that was added, with its action as it is shown.
pub fn report_added(pattern: &str, action: &str, count: usize) -> (r: String)
    ensures
        r@ == added_report(pattern@, action@, count as nat),
{
    let mut s: String = "Route added: ".to_owned();
    s.append(pattern);
    s.append(" (");
    s.append(action);
    s.append("), ");
    text::push_decimal(&mut s, count as u128);
    s.append(" total routes");
    s
}

fn label(action: &RouteAction) -> (r: String)
    ensures
        r@ == action_label(action.deep_view()),
{
    match action {
        RouteAction::Block => "block".to_owned(),
        RouteAction::Mock { status, content_type, body: _ } => {
            let mut s: String = "mock(".to_owned();
            text::push_decimal(&mut s, *status as u128);
            s.append("; ");
            s.append(content_type.as_str());
            s.append(")");
            s
        },
        RouteAction::Log => "log".to_owned(),
    }
}

/// Waits for the rules to be installed after a route was added.
#[derive(Debug)]
pub struct AddingRoute<S> {
    /// What is reported once they are.
    pub report: S,
}

impl DeepView for AddingRoute<String> {
    type V = AddingRoute<Seq<char>>;

    open spec fn deep_view(&self) -> AddingRoute<Seq<char>> {
        AddingRoute { report: self.report@ }
    }
}

impl ManagerView {
    /// The first step of adding a route, and the state after it.
    pub open spec fn add_route(self, route: RouteView) -> (
        ManagerView,
        StepView<AddingRoute<Seq<char>>, Seq<char>>,
    ) {
        let after: ManagerView = self.with_route(route);
        let report: Seq<char> = added_report(
            route.pattern,
            action_debug(route.action),
            after.routes.len(),
        );
        (after, after.inject_interception(AddingRoute { report }))
    }

    /// The end of adding a route, and the state then.
    pub open spec fn add_route_next(self, stage: AddingRoute<Seq<char>>, event: Event) -> (
        ManagerView,
        StepView<AddingRoute<Seq<char>>, Seq<char>>,
    ) {
        match event.value() {
            Ok(_) => (self.intercepting(), StepView::Done(Ok(stage.report))),
            Err(e) => (self, StepView::Done(Err(e))),
        }
    }

    /// The state after the routes of a pattern were removed, and what is reported.
    pub open spec fn remove_route(self, pattern: Seq<char>) -> (ManagerView, Seq<char>) {
        let after: ManagerView = self.without_route(pattern);
        (
            after,
            removed_report(
                (self.routes.len() - after.routes.len()) as nat,
                pattern,
                after.routes.len(),
            ),
        )
    }

    /// The routes as they are listed.
    pub open spec fn list_routes(self) -> Seq<JsonView> {
        self.routes.map_values(|route: RouteView| listed(route))
    }
}

impl Operation for AddingRoute<String> {
    type Output = String;

    fn resume(self, manager: &mut BrowserManager, event: Event) -> (step: Step<Self, String>)
        ensures
            (final(manager)@, step.deep_view()) == old(manager)@.add_route_next(
                self.deep_view(),
                event,
            ),
    {
        match event.into_value() {
            Ok(_) => {
                manager.interception_active = true;
                Step::Done(Ok(self.report))
            },
            Err(e) => Step::Done(Err(e)),
        }
    }
}

/// Waits for the rules on the page to be emptied.
#[derive(Debug)]
pub struct DisablingInterception {}

impl DeepView for DisablingInterception {
    type V = DisablingInterception;

    open spec fn deep_view(&self) -> DisablingInterception {
        *self
    }
}

impl DisablingInterception {
    /// What comes after an event.
    pub open spec fn next(self, event: Event) -> StepView<DisablingInterception, Seq<char>> {
        StepView::<DisablingInterception, Seq<char>>::Done(
            match event.value() {
                Ok(_) => Ok("Interception disabled, all routes cleared"@),
                Err(e) => Err(e),
            },
        )
    }
}

impl Operation for DisablingInterception {
    type Output = String;

    fn resume(self, manager: &mut BrowserManager, event: Event) -> (step: Step<Self, String>)
        ensures
            final(manager)@ == old(manager)@,
            step.deep_view() == self.next(event),
    {
        match event.into_value() {
            Ok(_) => Step::Done(Ok("Interception disabled, all routes cleared".to_owned())),
            Err(e) => Step::Done(Err(e)),
        }
    }
}

impl ManagerView {
    /// The first step of reading what was intercepted.
    pub open spec fn get_intercepted_requests(self) -> StepView<Evaluating, JsonView> {
        self.evaluate(scripts::READ_INTERCEPTED@)
    }
}

impl ManagerView {
    /// The first step of forgetting what was intercepted.
    pub open spec fn clear_intercepted(self) -> StepView<Running, ()> {
        self.run(scripts::CLEAR_INTERCEPTED@)
    }
}

impl ManagerView {
    /// The first step of disabling the interception.
    pub open spec fn disable_interception(self) -> StepView<DisablingInterception, Seq<char>> {
        self.ask::<DisablingInterception, Seq<char>>(
            scripts::DISABLE_INTERCEPTION@,
            DisablingInterception {  },
        )
    }
}

impl BrowserManager {
    /// Gives the page the rules for the routes and goes on with `next`.
    fn inject_interception<P: DeepView, T: DeepView>(&self, next: P) -> (step: Step<P, T>)
        ensures
            step.deep_view() == self@.inject_interception::<P::V, T::V>(next.deep_view()),
    {
        let rules: String = rules(&self.routes);
        self.ask(scripts::interception_script(rules.as_str()), next)
    }

    /// Adds a route and gives the page the new rules. The route stays where that fails.
    pub fn add_route(&mut self, pattern: String, action: RouteAction) -> (step: Step<
        AddingRoute<String>,
        String,
    >)
        ensures
            (final(self)@, step.deep_view()) == old(self)@.add_route(
                RouteView { pattern: pattern@, action: action.deep_view() },
            ),
    {
        let shown: String = debug_action(&action);
        let name: String = pattern.clone();
        self.routes.push(RouteRule { pattern, action });
        assert(self.routes.deep_view() =~= old(self).routes.deep_view().push(
            RouteView { pattern: pattern@, action: action.deep_view() },
        ));
        let report: String = report_added(name.as_str(), shown.as_str(), self.routes.len());
        self.inject_interception(AddingRoute { report })
    }

    /// Removes the routes with that pattern. The rules on the page stay as they are.
    pub fn remove_route(&mut self, pattern: &str) -> (r: Result<String, BrowserError>)
        ensures
            r matches Ok(report) && (final(self)@, report@) == old(self)@.remove_route(pattern@),
    {
        let before: usize = self.routes.len();
        let ghost views: Seq<RouteView> = self.routes.deep_view();
        let ghost keep = |r: RouteView| r.pattern != pattern@;
        let mut done: usize = 0;
        let mut i: usize = 0;
        proof {
            reveal(Seq::filter);
            assert(views.take(0).filter(keep) =~= Seq::<RouteView>::empty());
            assert(views.take(0).filter(keep) + views.skip(0) =~= views);
        }
        while i < self.routes.len()
            invariant
                before == views.len(),
                done <= before,
                keep == (|r: RouteView| r.pattern != pattern@),
                i == views.take(done as int).filter(keep).len(),
                self.routes.deep_view() == views.take(done as int).filter(keep) + views.skip(
                    done as int,
                ),
                self@ == (ManagerView { routes: self@.routes, ..old(self)@ }),
            decreases before - done,
        {
            let ghost kept: Seq<RouteView> = views.take(done as int).filter(keep);
            let ghost current: Seq<RouteView> = self.routes.deep_view();
            proof {
                assert(current.len() == self.routes@.len());
                assert(done < before);
                assert(current[i as int] == self.routes@[i as int].deep_view());
                assert(current[i as int] == views[done as int]);
                assert(views.take(done + 1) =~= views.take(done as int).push(views[done as int]));
                views.take(done as int).lemma_filter_push(views[done as int], keep);
            }
            if text::same_text(self.routes[i].pattern.as_str(), pattern) {
                self.routes.remove(i);
                assert(self.routes.deep_view() =~= current.remove(i as int));
                assert(current.remove(i as int) =~= kept + views.skip(done + 1));
            } else {
                i = i + 1;
                assert(current =~= kept.push(views[done as int]) + views.skip(done + 1));
            }
            done = done + 1;
        }
        proof {
            assert(self.routes.deep_view().len() == self.routes@.len());
            assert(done == before);
            assert(views.take(done as int) =~= views);
            assert(self.routes.deep_view() =~= views.filter(keep));
            views.lemma_filter_len(keep);
        }
        let removed: usize = before - self.routes.len();
        let mut report: String = "Removed ".to_owned();
        text::push_decimal(&mut report, removed as u128);
        report.append(" route(s) matching '");
        report.append(pattern);
        report.append("', ");
        text::push_decimal(&mut report, self.routes.len() as u128);
        report.append(" remaining");
        Ok(report)
    }

    /// The routes, oldest first.
    pub fn list_routes(&self) -> (r: Vec<Json>)
        ensures
            r.deep_view() == self@.list_routes(),
    {
        let mut r: Vec<Json> = no_items();
        let mut i: usize = 0;
        while i < self.routes.len()
            invariant
                i <= self.routes@.len(),
                r.deep_view() == self@.routes.take(i as int).map_values(
                    |route: RouteView| listed(route),
                ),
            decreases self.routes@.len() - i,
        {
            let route: &RouteRule = &self.routes[i];
            let mut fields: Vec<(String, Json)> = no_fields();
            push_field(&mut fields, "pattern", Json::text(route.pattern.as_str()));
            push_field(&mut fields, "action", Json::Text(label(&route.action)));
            assert(json::members(fields@) =~= listed(route.deep_view())->Object_0);
            push_item(&mut r, Json::object(fields));
            i = i + 1;
            assert(r.deep_view() =~= self@.routes.take(i as int).map_values(
                |route: RouteView| listed(route),
            ));
        }
        assert(self@.routes.take(i as int) =~= self@.routes);
        r
    }

    /// Asks for the requests that were intercepted, as JSON text.
    pub fn get_intercepted_requests(&self) -> (step: Step<Evaluating, Json>)
        ensures
            step.deep_view() == self@.get_intercepted_requests(),
    {
        self.evaluate(scripts::READ_INTERCEPTED)
    }

    /// Forgets the requests that were intercepted.
    pub fn clear_intercepted(&self) -> (step: Step<Running, ()>)
        ensures
            step.deep_view() == self@.clear_intercepted(),
    {
        self.run(scripts::CLEAR_INTERCEPTED.to_owned())
    }

    /// Drops all routes and gives the page its own functions for requests back. The routes are
    /// gone even where the page refuses the script.
    pub fn disable_interception(&mut self) -> (step: Step<DisablingInterception, String>)
        ensures
            final(self)@ == old(self)@.passing(),
            step.deep_view() == old(self)@.disable_interception(),
    {
        self.routes.clear();
        self.interception_active = false;
        assert(self.routes.deep_view() =~= Seq::<RouteView>::empty());
        self.ask(scripts::DISABLE_INTERCEPTION.to_owned(), DisablingInterception {  })
    }
}

} // verus!
