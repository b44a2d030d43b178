//! Waiting for elements: both waits look again and again until the timer runs out.

use vstd::prelude::*;

use crate::browser::{BrowserManager, ManagerView};
use crate::error::{BrowserError, ErrorView};
use crate::json::{Json, JsonView};
use crate::scripts;
use crate::step::{Action, ActionView, Event, Operation, PageId, Step, StepView};

verus! {

/// How long a wait pauses between two looks.
pub const LOOK_AGAIN_MS: u64 = 100;

/// Where a wait for a selector stands.
#[derive(Debug, Clone, Copy)]
pub enum WaitStage {
    /// The timer is started.
    Starting,
    /// The timer is read.
    Timing,
    /// The element is looked for.
    Finding,
    /// The element is looked at.
    Checking,
    /// The wait pauses.
    Sleeping,
}

/// Waits for an element by selector.
#[derive(Debug)]
pub struct WaitingFor<S> {
    pub page: PageId,
    pub selector: S,
    pub timeout_ms: u64,
    pub check_visible: bool,
    pub stage: WaitStage,
}

impl DeepView for WaitingFor<String> {
    type V = WaitingFor<Seq<char>>;

    open spec fn deep_view(&self) -> WaitingFor<Seq<char>> {
        WaitingFor {
            page: self.page,
            selector: self.selector@,
            timeout_ms: self.timeout_ms,
            check_visible: self.check_visible,
            stage: self.stage,
        }
    }
}

/// How a message names what was waited for.
pub open spec fn awaited(what: Seq<char>, check_visible: bool) -> Seq<char> {
    what + if check_visible {
        " (visible)"@
    } else {
        ""@
    }
}

fn awaited_text(what: String, check_visible: bool) -> (r: String)
    ensures
        r@ == awaited(what@, check_visible),
{
    let suffix: &str = if check_visible {
        " (visible)"
    } else {
        ""
    };
    what.concat(suffix)
}

impl<S> WaitingFor<S> {
    /// The same wait at another stage.
    pub open spec fn at(self, stage: WaitStage) -> WaitingFor<S> {
        WaitingFor { stage, ..self }
    }
}

impl WaitingFor<Seq<char>> {
    /// What comes after an event.
    pub open spec fn next(self, event: Event) -> StepView<WaitingFor<Seq<char>>, ()> {
        let pause: StepView<WaitingFor<Seq<char>>, ()> = StepView::Ask(
            ActionView::Sleep { ms: LOOK_AGAIN_MS },
            self.at(WaitStage::Sleeping),
        );
        match self.stage {
            WaitStage::Starting | WaitStage::Sleeping => StepView::Ask(
                ActionView::ReadTimer,
                self.at(WaitStage::Timing),
            ),
            WaitStage::Timing => if event.millis() < self.timeout_ms {
                StepView::Ask(
                    ActionView::FindElement { page: self.page, selector: self.selector },
                    self.at(WaitStage::Finding),
                )
            } else {
                StepView::Done(
                    Err(
                        ErrorView::Timeout(
                            "Waiting for "@ + awaited(self.selector, self.check_visible),
                        ),
                    ),
                )
            },
            WaitStage::Finding => if event.element() is None {
                pause
            } else if self.check_visible {
                StepView::Ask(
                    ActionView::Evaluate {
                        page: self.page,
                        script: scripts::visible(self.selector),
                    },
                    self.at(WaitStage::Checking),
                )
            } else {
                StepView::Done(Ok(()))
            },
            WaitStage::Checking => if event.value() == Ok::<JsonView, ErrorView>(
                JsonView::Bool(true),
            ) {
                StepView::Done(Ok(()))
            } else {
                pause
            },
        }
    }
}

impl WaitingFor<String> {
    fn pause(self) -> (step: Step<WaitingFor<String>, ()>)
        ensures
            step.deep_view() == StepView::<WaitingFor<Seq<char>>, ()>::Ask(
                ActionView::Sleep { ms: LOOK_AGAIN_MS },
                self.deep_view().at(WaitStage::Sleeping),
            ),
    {
        Step::Ask(
            Action::Sleep { ms: LOOK_AGAIN_MS },
            WaitingFor { stage: WaitStage::Sleeping, ..self },
        )
    }
}

impl Operation for WaitingFor<String> {
    type Output = ();

    fn resume(self, manager: &mut BrowserManager, event: Event) -> (step: Step<Self, ()>)
        ensures
            final(manager)@ == old(manager)@,
            step.deep_view() == self.deep_view().next(event),
    {
        match self.stage {
            WaitStage::Starting | WaitStage::Sleeping => Step::Ask(
                Action::ReadTimer,
                WaitingFor { stage: WaitStage::Timing, ..self },
            ),
            WaitStage::Timing => if event.into_millis() < self.timeout_ms as u128 {
                Step::Ask(
                    Action::FindElement { page: self.page, selector: self.selector.clone() },
                    WaitingFor { stage: WaitStage::Finding, ..self },
                )
            } else {
                let what: String = awaited_text(self.selector, self.check_visible);
                Step::Done(
                    Err(BrowserError::Timeout("Waiting for ".to_owned().concat(what.as_str()))),
                )
            },
            WaitStage::Finding => if event.into_element().is_none() {
                self.pause()
            } else if self.check_visible {
                Step::Ask(
                    Action::Evaluate {
                        page: self.page,
                        script: scripts::visible_script(self.selector.as_str()),
                    },
                    WaitingFor { stage: WaitStage::Checking, ..self },
                )
            } else {
                Step::Done(Ok(()))
            },
            WaitStage::Checking => match event.into_value() {
                Ok(Json::Bool(true)) => Step::Done(Ok(())),
                _ => self.pause(),
            },
        }
    }
}

/// Where a wait for an XPath expression stands.
#[derive(Debug, Clone, Copy)]
pub enum XpathStage {
    /// The timer is started.
    Starting,
    /// The timer is read.
    Timing,
    /// A script looks for the element and at it.
    Looking,
    /// The wait pauses.
    Sleeping,
}

/// Waits for an element by XPath expression.
#[derive(Debug)]
pub struct WaitingForXpath<S> {
    pub xpath: S,
    pub timeout_ms: u64,
    pub check_visible: bool,
    pub stage: XpathStage,
}

impl DeepView for WaitingForXpath<String> {
    type V = WaitingForXpath<Seq<char>>;

    open spec fn deep_view(&self) -> WaitingForXpath<Seq<char>> {
        WaitingForXpath {
            xpath: self.xpath@,
            timeout_ms: self.timeout_ms,
            check_visible: self.check_visible,
            stage: self.stage,
        }
    }
}

impl<S> WaitingForXpath<S> {
    /// The same wait at another stage.
    pub open spec fn at(self, stage: XpathStage) -> WaitingForXpath<S> {
        WaitingForXpath { stage, ..self }
    }
}

/// Whether what the script saw ends the wait.
pub open spec fn seen(event: Event, check_visible: bool) -> bool {
    match event.value() {
        Ok(state) => state.is_true("found"@) && (!check_visible || state.is_true("visible"@)),
        Err(_) => false,
    }
}

/// Whether what the script saw ends the wait.
pub fn is_seen(event: Event, check_visible: bool) -> (r: bool)
    ensures
        r == seen(event, check_visible),
{
    match event.into_value() {
        Ok(state) => state.is_true("found") && (!check_visible || state.is_true("visible")),
        Err(_) => false,
    }
}

impl ManagerView {
    /// What comes after an event while an XPath expression is waited for. Without a page there
    /// is nothing to look at, and the wait goes on until the timer runs out.
    pub open spec fn wait_xpath_next(
        self,
        wait: WaitingForXpath<Seq<char>>,
        event: Event,
    ) -> StepView<WaitingForXpath<Seq<char>>, ()> {
        let pause: StepView<WaitingForXpath<Seq<char>>, ()> = StepView::Ask(
            ActionView::Sleep { ms: LOOK_AGAIN_MS },
            wait.at(XpathStage::Sleeping),
        );
        match wait.stage {
            XpathStage::Starting | XpathStage::Sleeping => StepView::Ask(
                ActionView::ReadTimer,
                wait.at(XpathStage::Timing),
            ),
            XpathStage::Timing => if event.millis() < wait.timeout_ms {
                match self.page() {
                    Some(page) => StepView::Ask(
                        ActionView::Evaluate { page, script: scripts::xpath_state(wait.xpath) },
                        wait.at(XpathStage::Looking),
                    ),
                    None => pause,
                }
            } else {
                StepView::Done(
                    Err(
                        ErrorView::Timeout(
                            "Waiting for xpath: "@ + awaited(wait.xpath, wait.check_visible),
                        ),
                    ),
                )
            },
            XpathStage::Looking => if seen(event, wait.check_visible) {
                StepView::Done(Ok(()))
            } else {
                pause
            },
        }
    }
}

impl WaitingForXpath<String> {
    fn pause(self) -> (step: Step<WaitingForXpath<String>, ()>)
        ensures
            step.deep_view() == StepView::<WaitingForXpath<Seq<char>>, ()>::Ask(
                ActionView::Sleep { ms: LOOK_AGAIN_MS },
                self.deep_view().at(XpathStage::Sleeping),
            ),
    {
        Step::Ask(
            Action::Sleep { ms: LOOK_AGAIN_MS },
            WaitingForXpath { stage: XpathStage::Sleeping, ..self },
        )
    }
}

impl Operation for WaitingForXpath<String> {
    type Output = ();

    fn resume(self, manager: &mut BrowserManager, event: Event) -> (step: Step<Self, ()>)
        ensures
            final(manager)@ == old(manager)@,
            step.deep_view() == old(manager)@.wait_xpath_next(self.deep_view(), event),
    {
        match self.stage {
            XpathStage::Starting | XpathStage::Sleeping => Step::Ask(
                Action::ReadTimer,
                WaitingForXpath { stage: XpathStage::Timing, ..self },
            ),
            XpathStage::Timing => if event.into_millis() < self.timeout_ms as u128 {
                match manager.page() {
                    Ok(page) => Step::Ask(
                        Action::Evaluate {
                            page,
                            script: scripts::xpath_state_script(self.xpath.as_str()),
                        },
                        WaitingForXpath { stage: XpathStage::Looking, ..self },
                    ),
                    Err(_) => self.pause(),
                }
            } else {
                let what: String = awaited_text(self.xpath, self.check_visible);
                Step::Done(
                    Err(
                        BrowserError::Timeout(
                            "Waiting for xpath: ".to_owned().concat(what.as_str()),
                        ),
                    ),
                )
            },
            XpathStage::Looking => if is_seen(event, self.check_visible) {
                Step::Done(Ok(()))
            } else {
                self.pause()
            },
        }
    }
}

impl ManagerView {
    /// The first step of a wait for a selector.
    pub open spec fn wait_for(
        self,
        selector: Seq<char>,
        timeout_ms: u64,
        check_visible: bool,
    ) -> StepView<WaitingFor<Seq<char>>, ()> {
        match self.page() {
            Some(page) => StepView::Ask(
                ActionView::StartTimer,
                WaitingFor {
                    page,
                    selector,
                    timeout_ms,
                    check_visible,
                    stage: WaitStage::Starting,
                },
            ),
            None => StepView::Done(Err(ErrorView::NoPage)),
        }
    }

    /// The first step of a wait for an XPath expression.
    pub open spec fn wait_for_xpath(
        self,
        xpath: Seq<char>,
        timeout_ms: u64,
        check_visible: bool,
    ) -> StepView<WaitingForXpath<Seq<char>>, ()> {
        StepView::Ask(
            ActionView::StartTimer,
            WaitingForXpath { xpath, timeout_ms, check_visible, stage: XpathStage::Starting },
        )
    }

    /// The first step of a wait for a visible element.
    pub open spec fn auto_wait_selector(self, selector: Seq<char>, timeout_ms: u64) -> StepView<
        WaitingFor<Seq<char>>,
        (),
    > {
        self.wait_for(selector, timeout_ms, true)
    }

    /// The first step of a wait for a visible element under an XPath expression.
    pub open spec fn auto_wait_xpath(self, xpath: Seq<char>, timeout_ms: u64) -> StepView<
        WaitingForXpath<Seq<char>>,
        (),
    > {
        self.wait_for_xpath(xpath, timeout_ms, true)
    }
}

impl BrowserManager {
    /// Waits for an element, and for it to be visible where that is asked for.
    pub fn wait_for(&self, selector: &str, timeout_ms: u64, check_visible: bool) -> (step: Step<
        WaitingFor<String>,
        (),
    >)
        ensures
            step.deep_view() == self@.wait_for(selector@, timeout_ms, check_visible),
    {
        match self.page() {
            Ok(page) => Step::Ask(
                Action::StartTimer,
                WaitingFor {
                    page,
                    selector: selector.to_owned(),
                    timeout_ms,
                    check_visible,
                    stage: WaitStage::Starting,
                },
            ),
            Err(e) => Step::Done(Err(e)),
        }
    }

    /// Waits for an element under an XPath expression, and for it to be visible where that is
    /// asked for.
    pub fn wait_for_xpath(&self, xpath: &str, timeout_ms: u64, check_visible: bool) -> (step: Step<
        WaitingForXpath<String>,
        (),
    >)
        ensures
            step.deep_view() == self@.wait_for_xpath(xpath@, timeout_ms, check_visible),
    {
        Step::Ask(
            Action::StartTimer,
            WaitingForXpath {
                xpath: xpath.to_owned(),
                timeout_ms,
                check_visible,
                stage: XpathStage::Starting,
            },
        )
    }

    /// Waits for a visible element.
    pub fn auto_wait_selector(&self, selector: &str, timeout_ms: u64) -> (step: Step<
        WaitingFor<String>,
        (),
    >)
        ensures
            step.deep_view() == self@.auto_wait_selector(selector@, timeout_ms),
    {
        self.wait_for(selector, timeout_ms, true)
    }

    /// Waits for a visible element under an XPath expression.
    pub fn auto_wait_xpath(&self, xpath: &str, timeout_ms: u64) -> (step: Step<
        WaitingForXpath<String>,
        (),
    >)
        ensures
            step.deep_view() == self@.auto_wait_xpath(xpath@, timeout_ms),
    {
        self.wait_for_xpath(xpath, timeout_ms, true)
    }
}

} // verus!
